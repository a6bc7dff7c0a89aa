//! Verified codecs for the array shapes record payloads and record
//! responses are built from: strings, nullable strings, numbers held as
//! numeral texts, opaque objects, and the include selectors.

use vstd::prelude::*;
use crate::codec::{str_item_vals, str_items_ok};
use crate::config::num_json;
use crate::json::{
    json_array, json_as_array, json_as_object, json_as_str, json_clone, json_is_null,
    json_is_number, json_null, json_number_from_text, json_number_text, json_of_value,
    json_string, num_of_text, Json,
};
use crate::models::Include;
use crate::text::str_eq;

verus! {

// --- element shapes ---------------------------------------------------------

pub open spec fn elem_opt_str_ok(j: Json) -> bool {
    j is Str || j is Null
}

pub open spec fn elem_opt_str_val(j: Json) -> Option<Seq<char>> {
    match j {
        Json::Str(s) => Some(s),
        _ => None,
    }
}

pub open spec fn elem_opt_num_ok(j: Json) -> bool {
    j.is_number() || j is Null
}

pub open spec fn elem_opt_num_val(j: Json) -> Option<Seq<char>> {
    if j.is_number() {
        Some(j.number_text())
    } else {
        None
    }
}

pub open spec fn elem_opt_obj_ok(j: Json) -> bool {
    j is Obj || j is Null
}

pub open spec fn elem_opt_obj_val(j: Json) -> Option<Json> {
    if j is Obj {
        Some(j)
    } else {
        None
    }
}

/// The model of a vector of opaque pass-through values.
pub open spec fn opt_values_model(s: Seq<Option<serde_json::Value>>) -> Seq<Option<Json>> {
    s.map_values(
        |o: Option<serde_json::Value>|
            match o {
                Some(v) => Some(json_of_value(v)),
                None => None,
            },
    )
}

// --- decoding: rows ---------------------------------------------------------

pub open spec fn opt_str_items_ok(items: Seq<Json>) -> bool {
    forall|i: int| 0 <= i < items.len() ==> elem_opt_str_ok(#[trigger] items[i])
}

pub open spec fn opt_str_item_vals(items: Seq<Json>) -> Seq<Option<Seq<char>>> {
    items.map_values(|j: Json| elem_opt_str_val(j))
}

/// Reads an array whose items are strings or nulls.
pub(crate) fn decode_opt_strings(v: &serde_json::Value) -> (r: Result<Vec<Option<String>>, ()>)
    ensures
        r is Ok <==> (json_of_value(*v) is Arr && opt_str_items_ok(json_of_value(*v)->Arr_0)),
        r matches Ok(xs) ==> xs.deep_view() == opt_str_item_vals(json_of_value(*v)->Arr_0),
{
    match json_as_array(v) {
        Some(a) => {
            let ghost items = json_of_value(*v)->Arr_0;
            let mut xs: Vec<Option<String>> = Vec::new();
            let mut i: usize = 0;
            while i < a.len()
                invariant
                    i <= a.len(),
                    json_of_value(*v) == Json::Arr(items),
                    items == a@.map_values(|x: serde_json::Value| json_of_value(x)),
                    items.len() == a@.len(),
                    xs.deep_view().len() == i as int,
                    forall|j: int| 0 <= j < i ==> elem_opt_str_ok(#[trigger] items[j]),
                    forall|j: int|
                        0 <= j < i ==> #[trigger] xs.deep_view()[j] == elem_opt_str_val(items[j]),
                decreases a.len() - i,
            {
                proof {
                    assert(items[i as int] == json_of_value(a@[i as int]));
                }
                let elem = &a[i];
                if json_is_null(elem) {
                    let ghost pre = xs.deep_view();
                    xs.push(None);
                    proof {
                        assert(xs.deep_view() =~= pre.push(None));
                    }
                } else {
                    match json_as_str(elem) {
                        Some(s) => {
                            let owned = s.to_owned();
                            let ghost pre = xs.deep_view();
                            xs.push(Some(owned));
                            proof {
                                assert(xs.deep_view() =~= pre.push(Some(owned@)));
                            }
                        },
                        None => {
                            proof {
                                assert(!elem_opt_str_ok(items[i as int]));
                            }
                            return Err(());
                        },
                    }
                }
                i += 1;
            }
            proof {
                assert(xs.deep_view() =~= opt_str_item_vals(items));
            }
            Ok(xs)
        },
        None => Err(()),
    }
}

pub open spec fn num_items_ok(items: Seq<Json>) -> bool {
    forall|i: int| 0 <= i < items.len() ==> (#[trigger] items[i]).is_number()
}

pub open spec fn num_item_vals(items: Seq<Json>) -> Seq<Seq<char>> {
    items.map_values(|j: Json| j.number_text())
}

/// Reads an array whose items must all be numbers, as numeral texts.
pub(crate) fn decode_nums(v: &serde_json::Value) -> (r: Result<Vec<String>, ()>)
    ensures
        r is Ok <==> (json_of_value(*v) is Arr && num_items_ok(json_of_value(*v)->Arr_0)),
        r matches Ok(xs) ==> xs.deep_view() == num_item_vals(json_of_value(*v)->Arr_0),
{
    match json_as_array(v) {
        Some(a) => {
            let ghost items = json_of_value(*v)->Arr_0;
            let mut xs: Vec<String> = Vec::new();
            let mut i: usize = 0;
            while i < a.len()
                invariant
                    i <= a.len(),
                    json_of_value(*v) == Json::Arr(items),
                    items == a@.map_values(|x: serde_json::Value| json_of_value(x)),
                    items.len() == a@.len(),
                    xs.deep_view().len() == i as int,
                    forall|j: int| 0 <= j < i ==> (#[trigger] items[j]).is_number(),
                    forall|j: int|
                        0 <= j < i ==> #[trigger] xs.deep_view()[j] == items[j].number_text(),
                decreases a.len() - i,
            {
                proof {
                    assert(items[i as int] == json_of_value(a@[i as int]));
                }
                let elem = &a[i];
                if json_is_number(elem) {
                    let t = json_number_text(elem);
                    let ghost pre = xs.deep_view();
                    xs.push(t);
                    proof {
                        assert(xs.deep_view() =~= pre.push(items[i as int].number_text()));
                    }
                } else {
                    return Err(());
                }
                i += 1;
            }
            proof {
                assert(xs.deep_view() =~= num_item_vals(items));
            }
            Ok(xs)
        },
        None => Err(()),
    }
}

pub open spec fn opt_num_items_ok(items: Seq<Json>) -> bool {
    forall|i: int| 0 <= i < items.len() ==> elem_opt_num_ok(#[trigger] items[i])
}

pub open spec fn opt_num_item_vals(items: Seq<Json>) -> Seq<Option<Seq<char>>> {
    items.map_values(|j: Json| elem_opt_num_val(j))
}

/// Reads an array whose items are numbers or nulls, as numeral texts.
pub(crate) fn decode_opt_nums(v: &serde_json::Value) -> (r: Result<Vec<Option<String>>, ()>)
    ensures
        r is Ok <==> (json_of_value(*v) is Arr && opt_num_items_ok(json_of_value(*v)->Arr_0)),
        r matches Ok(xs) ==> xs.deep_view() == opt_num_item_vals(json_of_value(*v)->Arr_0),
{
    match json_as_array(v) {
        Some(a) => {
            let ghost items = json_of_value(*v)->Arr_0;
            let mut xs: Vec<Option<String>> = Vec::new();
            let mut i: usize = 0;
            while i < a.len()
                invariant
                    i <= a.len(),
                    json_of_value(*v) == Json::Arr(items),
                    items == a@.map_values(|x: serde_json::Value| json_of_value(x)),
                    items.len() == a@.len(),
                    xs.deep_view().len() == i as int,
                    forall|j: int| 0 <= j < i ==> elem_opt_num_ok(#[trigger] items[j]),
                    forall|j: int|
                        0 <= j < i ==> #[trigger] xs.deep_view()[j] == elem_opt_num_val(items[j]),
                decreases a.len() - i,
            {
                proof {
                    assert(items[i as int] == json_of_value(a@[i as int]));
                }
                let elem = &a[i];
                if json_is_null(elem) {
                    let ghost pre = xs.deep_view();
                    xs.push(None);
                    proof {
                        assert(xs.deep_view() =~= pre.push(None));
                    }
                } else if json_is_number(elem) {
                    let t = json_number_text(elem);
                    let ghost pre = xs.deep_view();
                    xs.push(Some(t));
                    proof {
                        assert(xs.deep_view() =~= pre.push(Some(items[i as int].number_text())));
                    }
                } else {
                    return Err(());
                }
                i += 1;
            }
            proof {
                assert(xs.deep_view() =~= opt_num_item_vals(items));
            }
            Ok(xs)
        },
        None => Err(()),
    }
}

pub open spec fn opt_obj_items_ok(items: Seq<Json>) -> bool {
    forall|i: int| 0 <= i < items.len() ==> elem_opt_obj_ok(#[trigger] items[i])
}

pub open spec fn opt_obj_item_vals(items: Seq<Json>) -> Seq<Option<Json>> {
    items.map_values(|j: Json| elem_opt_obj_val(j))
}

/// Reads an array whose items are objects or nulls, keeping each object
/// as an opaque value.
pub(crate) fn decode_opt_objects(v: &serde_json::Value) -> (r: Result<
    Vec<Option<serde_json::Value>>,
    (),
>)
    ensures
        r is Ok <==> (json_of_value(*v) is Arr && opt_obj_items_ok(json_of_value(*v)->Arr_0)),
        r matches Ok(xs) ==> opt_values_model(xs@) == opt_obj_item_vals(json_of_value(*v)->Arr_0),
{
    match json_as_array(v) {
        Some(a) => {
            let ghost items = json_of_value(*v)->Arr_0;
            let mut xs: Vec<Option<serde_json::Value>> = Vec::new();
            let mut i: usize = 0;
            while i < a.len()
                invariant
                    i <= a.len(),
                    json_of_value(*v) == Json::Arr(items),
                    items == a@.map_values(|x: serde_json::Value| json_of_value(x)),
                    items.len() == a@.len(),
                    xs@.len() == i as int,
                    forall|j: int| 0 <= j < i ==> elem_opt_obj_ok(#[trigger] items[j]),
                    forall|j: int|
                        0 <= j < i ==> #[trigger] opt_values_model(xs@)[j] == elem_opt_obj_val(
                            items[j],
                        ),
                decreases a.len() - i,
            {
                proof {
                    assert(items[i as int] == json_of_value(a@[i as int]));
                }
                let elem = &a[i];
                if json_is_null(elem) {
                    let ghost pre = xs@;
                    xs.push(None);
                    proof {
                        assert(opt_values_model(xs@) =~= opt_values_model(pre).push(None));
                    }
                } else {
                    match json_as_object(elem) {
                        Some(_) => {
                            let copy = json_clone(elem);
                            let ghost pre = xs@;
                            xs.push(Some(copy));
                            proof {
                                assert(opt_values_model(xs@) =~= opt_values_model(pre).push(
                                    Some(json_of_value(copy)),
                                ));
                            }
                        },
                        None => {
                            return Err(());
                        },
                    }
                }
                i += 1;
            }
            proof {
                assert(opt_values_model(xs@) =~= opt_obj_item_vals(items));
            }
            Ok(xs)
        },
        None => Err(()),
    }
}

// --- decoding: matrices -----------------------------------------------------

pub open spec fn str_matrix_ok(items: Seq<Json>) -> bool {
    forall|i: int|
        0 <= i < items.len() ==> (#[trigger] items[i]) is Arr && str_items_ok(items[i]->Arr_0)
}

pub open spec fn str_matrix_vals(items: Seq<Json>) -> Seq<Seq<Seq<char>>> {
    items.map_values(|j: Json| str_item_vals(j->Arr_0))
}

/// Reads an array of arrays of strings.
pub(crate) fn decode_str_matrix(v: &serde_json::Value) -> (r: Result<Vec<Vec<String>>, ()>)
    ensures
        r is Ok <==> (json_of_value(*v) is Arr && str_matrix_ok(json_of_value(*v)->Arr_0)),
        r matches Ok(xs) ==> xs.deep_view() == str_matrix_vals(json_of_value(*v)->Arr_0),
{
    match json_as_array(v) {
        Some(a) => {
            let ghost items = json_of_value(*v)->Arr_0;
            let mut xs: Vec<Vec<String>> = Vec::new();
            let mut i: usize = 0;
            while i < a.len()
                invariant
                    i <= a.len(),
                    json_of_value(*v) == Json::Arr(items),
                    items == a@.map_values(|x: serde_json::Value| json_of_value(x)),
                    items.len() == a@.len(),
                    xs.deep_view().len() == i as int,
                    forall|j: int|
                        0 <= j < i ==> (#[trigger] items[j]) is Arr && str_items_ok(
                            items[j]->Arr_0,
                        ),
                    forall|j: int|
                        0 <= j < i ==> #[trigger] xs.deep_view()[j] == str_item_vals(
                            items[j]->Arr_0,
                        ),
                decreases a.len() - i,
            {
                proof {
                    assert(items[i as int] == json_of_value(a@[i as int]));
                }
                match crate::codec::decode_strings(&a[i]) {
                    Ok(row) => {
                        let ghost pre = xs.deep_view();
                        let ghost rowv = row.deep_view();
                        xs.push(row);
                        proof {
                            assert(xs.deep_view() =~= pre.push(rowv));
                        }
                    },
                    Err(_) => {
                        return Err(());
                    },
                }
                i += 1;
            }
            proof {
                assert(xs.deep_view() =~= str_matrix_vals(items));
            }
            Ok(xs)
        },
        None => Err(()),
    }
}

pub open spec fn num_matrix_ok(items: Seq<Json>) -> bool {
    forall|i: int|
        0 <= i < items.len() ==> (#[trigger] items[i]) is Arr && num_items_ok(items[i]->Arr_0)
}

pub open spec fn num_matrix_vals(items: Seq<Json>) -> Seq<Seq<Seq<char>>> {
    items.map_values(|j: Json| num_item_vals(j->Arr_0))
}

/// Reads an array of arrays of numbers, as numeral texts.
pub(crate) fn decode_num_matrix(v: &serde_json::Value) -> (r: Result<Vec<Vec<String>>, ()>)
    ensures
        r is Ok <==> (json_of_value(*v) is Arr && num_matrix_ok(json_of_value(*v)->Arr_0)),
        r matches Ok(xs) ==> xs.deep_view() == num_matrix_vals(json_of_value(*v)->Arr_0),
{
    match json_as_array(v) {
        Some(a) => {
            let ghost items = json_of_value(*v)->Arr_0;
            let mut xs: Vec<Vec<String>> = Vec::new();
            let mut i: usize = 0;
            while i < a.len()
                invariant
                    i <= a.len(),
                    json_of_value(*v) == Json::Arr(items),
                    items == a@.map_values(|x: serde_json::Value| json_of_value(x)),
                    items.len() == a@.len(),
                    xs.deep_view().len() == i as int,
                    forall|j: int|
                        0 <= j < i ==> (#[trigger] items[j]) is Arr && num_items_ok(
                            items[j]->Arr_0,
                        ),
                    forall|j: int|
                        0 <= j < i ==> #[trigger] xs.deep_view()[j] == num_item_vals(
                            items[j]->Arr_0,
                        ),
                decreases a.len() - i,
            {
                proof {
                    assert(items[i as int] == json_of_value(a@[i as int]));
                }
                match decode_nums(&a[i]) {
                    Ok(row) => {
                        let ghost pre = xs.deep_view();
                        let ghost rowv = row.deep_view();
                        xs.push(row);
                        proof {
                            assert(xs.deep_view() =~= pre.push(rowv));
                        }
                    },
                    Err(_) => {
                        return Err(());
                    },
                }
                i += 1;
            }
            proof {
                assert(xs.deep_view() =~= num_matrix_vals(items));
            }
            Ok(xs)
        },
        None => Err(()),
    }
}

pub open spec fn opt_str_matrix_ok(items: Seq<Json>) -> bool {
    forall|i: int|
        0 <= i < items.len() ==> (#[trigger] items[i]) is Arr && opt_str_items_ok(
            items[i]->Arr_0,
        )
}

pub open spec fn opt_str_matrix_vals(items: Seq<Json>) -> Seq<Seq<Option<Seq<char>>>> {
    items.map_values(|j: Json| opt_str_item_vals(j->Arr_0))
}

/// Reads an array of arrays of nullable strings.
pub(crate) fn decode_opt_str_matrix(v: &serde_json::Value) -> (r: Result<
    Vec<Vec<Option<String>>>,
    (),
>)
    ensures
        r is Ok <==> (json_of_value(*v) is Arr && opt_str_matrix_ok(json_of_value(*v)->Arr_0)),
        r matches Ok(xs) ==> xs.deep_view() == opt_str_matrix_vals(json_of_value(*v)->Arr_0),
{
    match json_as_array(v) {
        Some(a) => {
            let ghost items = json_of_value(*v)->Arr_0;
            let mut xs: Vec<Vec<Option<String>>> = Vec::new();
            let mut i: usize = 0;
            while i < a.len()
                invariant
                    i <= a.len(),
                    json_of_value(*v) == Json::Arr(items),
                    items == a@.map_values(|x: serde_json::Value| json_of_value(x)),
                    items.len() == a@.len(),
                    xs.deep_view().len() == i as int,
                    forall|j: int|
                        0 <= j < i ==> (#[trigger] items[j]) is Arr && opt_str_items_ok(
                            items[j]->Arr_0,
                        ),
                    forall|j: int|
                        0 <= j < i ==> #[trigger] xs.deep_view()[j] == opt_str_item_vals(
                            items[j]->Arr_0,
                        ),
                decreases a.len() - i,
            {
                proof {
                    assert(items[i as int] == json_of_value(a@[i as int]));
                }
                match decode_opt_strings(&a[i]) {
                    Ok(row) => {
                        let ghost pre = xs.deep_view();
                        let ghost rowv = row.deep_view();
                        xs.push(row);
                        proof {
                            assert(xs.deep_view() =~= pre.push(rowv));
                        }
                    },
                    Err(_) => {
                        return Err(());
                    },
                }
                i += 1;
            }
            proof {
                assert(xs.deep_view() =~= opt_str_matrix_vals(items));
            }
            Ok(xs)
        },
        None => Err(()),
    }
}

pub open spec fn opt_num_matrix_ok(items: Seq<Json>) -> bool {
    forall|i: int|
        0 <= i < items.len() ==> (#[trigger] items[i]) is Arr && opt_num_items_ok(
            items[i]->Arr_0,
        )
}

pub open spec fn opt_num_matrix_vals(items: Seq<Json>) -> Seq<Seq<Option<Seq<char>>>> {
    items.map_values(|j: Json| opt_num_item_vals(j->Arr_0))
}

/// Reads an array of arrays of nullable numbers, as numeral texts.
pub(crate) fn decode_opt_num_matrix(v: &serde_json::Value) -> (r: Result<
    Vec<Vec<Option<String>>>,
    (),
>)
    ensures
        r is Ok <==> (json_of_value(*v) is Arr && opt_num_matrix_ok(json_of_value(*v)->Arr_0)),
        r matches Ok(xs) ==> xs.deep_view() == opt_num_matrix_vals(json_of_value(*v)->Arr_0),
{
    match json_as_array(v) {
        Some(a) => {
            let ghost items = json_of_value(*v)->Arr_0;
            let mut xs: Vec<Vec<Option<String>>> = Vec::new();
            let mut i: usize = 0;
            while i < a.len()
                invariant
                    i <= a.len(),
                    json_of_value(*v) == Json::Arr(items),
                    items == a@.map_values(|x: serde_json::Value| json_of_value(x)),
                    items.len() == a@.len(),
                    xs.deep_view().len() == i as int,
                    forall|j: int|
                        0 <= j < i ==> (#[trigger] items[j]) is Arr && opt_num_items_ok(
                            items[j]->Arr_0,
                        ),
                    forall|j: int|
                        0 <= j < i ==> #[trigger] xs.deep_view()[j] == opt_num_item_vals(
                            items[j]->Arr_0,
                        ),
                decreases a.len() - i,
            {
                proof {
                    assert(items[i as int] == json_of_value(a@[i as int]));
                }
                match decode_opt_nums(&a[i]) {
                    Ok(row) => {
                        let ghost pre = xs.deep_view();
                        let ghost rowv = row.deep_view();
                        xs.push(row);
                        proof {
                            assert(xs.deep_view() =~= pre.push(rowv));
                        }
                    },
                    Err(_) => {
                        return Err(());
                    },
                }
                i += 1;
            }
            proof {
                assert(xs.deep_view() =~= opt_num_matrix_vals(items));
            }
            Ok(xs)
        },
        None => Err(()),
    }
}

pub open spec fn opt_num_cube_ok(items: Seq<Json>) -> bool {
    forall|i: int|
        0 <= i < items.len() ==> (#[trigger] items[i]) is Arr && opt_num_matrix_ok(
            items[i]->Arr_0,
        )
}

pub open spec fn opt_num_cube_vals(items: Seq<Json>) -> Seq<Seq<Seq<Option<Seq<char>>>>> {
    items.map_values(|j: Json| opt_num_matrix_vals(j->Arr_0))
}

/// Reads an array of arrays of arrays of nullable numbers.
pub(crate) fn decode_opt_num_cube(v: &serde_json::Value) -> (r: Result<
    Vec<Vec<Vec<Option<String>>>>,
    (),
>)
    ensures
        r is Ok <==> (json_of_value(*v) is Arr && opt_num_cube_ok(json_of_value(*v)->Arr_0)),
        r matches Ok(xs) ==> xs.deep_view() == opt_num_cube_vals(json_of_value(*v)->Arr_0),
{
    match json_as_array(v) {
        Some(a) => {
            let ghost items = json_of_value(*v)->Arr_0;
            let mut xs: Vec<Vec<Vec<Option<String>>>> = Vec::new();
            let mut i: usize = 0;
            while i < a.len()
                invariant
                    i <= a.len(),
                    json_of_value(*v) == Json::Arr(items),
                    items == a@.map_values(|x: serde_json::Value| json_of_value(x)),
                    items.len() == a@.len(),
                    xs.deep_view().len() == i as int,
                    forall|j: int|
                        0 <= j < i ==> (#[trigger] items[j]) is Arr && opt_num_matrix_ok(
                            items[j]->Arr_0,
                        ),
                    forall|j: int|
                        0 <= j < i ==> #[trigger] xs.deep_view()[j] == opt_num_matrix_vals(
                            items[j]->Arr_0,
                        ),
                decreases a.len() - i,
            {
                proof {
                    assert(items[i as int] == json_of_value(a@[i as int]));
                }
                match decode_opt_num_matrix(&a[i]) {
                    Ok(row) => {
                        let ghost pre = xs.deep_view();
                        let ghost rowv = row.deep_view();
                        xs.push(row);
                        proof {
                            assert(xs.deep_view() =~= pre.push(rowv));
                        }
                    },
                    Err(_) => {
                        return Err(());
                    },
                }
                i += 1;
            }
            proof {
                assert(xs.deep_view() =~= opt_num_cube_vals(items));
            }
            Ok(xs)
        },
        None => Err(()),
    }
}

pub open spec fn opt_obj_matrix_ok(items: Seq<Json>) -> bool {
    forall|i: int|
        0 <= i < items.len() ==> (#[trigger] items[i]) is Arr && opt_obj_items_ok(
            items[i]->Arr_0,
        )
}

pub open spec fn opt_obj_matrix_vals(items: Seq<Json>) -> Seq<Seq<Option<Json>>> {
    items.map_values(|j: Json| opt_obj_item_vals(j->Arr_0))
}

/// The model of a matrix of opaque pass-through values.
pub open spec fn opt_values_rows_model(s: Seq<Vec<Option<serde_json::Value>>>) -> Seq<
    Seq<Option<Json>>,
> {
    s.map_values(|row: Vec<Option<serde_json::Value>>| opt_values_model(row@))
}

/// Reads an array of arrays of nullable objects, keeping each object as
/// an opaque value.
pub(crate) fn decode_opt_obj_matrix(v: &serde_json::Value) -> (r: Result<
    Vec<Vec<Option<serde_json::Value>>>,
    (),
>)
    ensures
        r is Ok <==> (json_of_value(*v) is Arr && opt_obj_matrix_ok(json_of_value(*v)->Arr_0)),
        r matches Ok(xs) ==> opt_values_rows_model(xs@) == opt_obj_matrix_vals(
            json_of_value(*v)->Arr_0,
        ),
{
    match json_as_array(v) {
        Some(a) => {
            let ghost items = json_of_value(*v)->Arr_0;
            let mut xs: Vec<Vec<Option<serde_json::Value>>> = Vec::new();
            let mut i: usize = 0;
            while i < a.len()
                invariant
                    i <= a.len(),
                    json_of_value(*v) == Json::Arr(items),
                    items == a@.map_values(|x: serde_json::Value| json_of_value(x)),
                    items.len() == a@.len(),
                    xs@.len() == i as int,
                    forall|j: int|
                        0 <= j < i ==> (#[trigger] items[j]) is Arr && opt_obj_items_ok(
                            items[j]->Arr_0,
                        ),
                    forall|j: int|
                        0 <= j < i ==> #[trigger] opt_values_rows_model(xs@)[j]
                            == opt_obj_item_vals(items[j]->Arr_0),
                decreases a.len() - i,
            {
                proof {
                    assert(items[i as int] == json_of_value(a@[i as int]));
                }
                match decode_opt_objects(&a[i]) {
                    Ok(row) => {
                        let ghost pre = xs@;
                        let ghost rowm = opt_values_model(row@);
                        xs.push(row);
                        proof {
                            assert(opt_values_rows_model(xs@) =~= opt_values_rows_model(
                                pre,
                            ).push(rowm));
                        }
                    },
                    Err(_) => {
                        return Err(());
                    },
                }
                i += 1;
            }
            proof {
                assert(opt_values_rows_model(xs@) =~= opt_obj_matrix_vals(items));
            }
            Ok(xs)
        },
        None => Err(()),
    }
}

// --- include selectors ------------------------------------------------------

/// The wire text of an include selector.
pub open spec fn include_text(x: Include) -> Seq<char> {
    match x {
        Include::Distances => "distances"@,
        Include::Documents => "documents"@,
        Include::Embeddings => "embeddings"@,
        Include::Metadatas => "metadatas"@,
        Include::Uris => "uris"@,
    }
}

pub open spec fn include_of_text(s: Seq<char>) -> Option<Include> {
    if s == "distances"@ {
        Some(Include::Distances)
    } else if s == "documents"@ {
        Some(Include::Documents)
    } else if s == "embeddings"@ {
        Some(Include::Embeddings)
    } else if s == "metadatas"@ {
        Some(Include::Metadatas)
    } else if s == "uris"@ {
        Some(Include::Uris)
    } else {
        None
    }
}

pub open spec fn include_of_text_or_default(s: Seq<char>) -> Include {
    match include_of_text(s) {
        Some(x) => x,
        None => Include::Distances,
    }
}

pub(crate) fn include_as_str(x: Include) -> (r: &'static str)
    ensures
        r@ == include_text(x),
{
    match x {
        Include::Distances => "distances",
        Include::Documents => "documents",
        Include::Embeddings => "embeddings",
        Include::Metadatas => "metadatas",
        Include::Uris => "uris",
    }
}

pub open spec fn include_items_ok(items: Seq<Json>) -> bool {
    forall|i: int|
        0 <= i < items.len() ==> (#[trigger] items[i]) is Str && include_of_text(
            items[i]->Str_0,
        ) is Some
}

pub open spec fn include_item_vals(items: Seq<Json>) -> Seq<Include> {
    items.map_values(|j: Json| include_of_text_or_default(j->Str_0))
}

/// The array an include list serializes to.
pub open spec fn includes_json(xs: Seq<Include>) -> Json {
    Json::Arr(xs.map_values(|x: Include| Json::Str(include_text(x))))
}

pub(crate) fn decode_includes(v: &serde_json::Value) -> (r: Result<Vec<Include>, ()>)
    ensures
        r is Ok <==> (json_of_value(*v) is Arr && include_items_ok(json_of_value(*v)->Arr_0)),
        r matches Ok(xs) ==> xs@ == include_item_vals(json_of_value(*v)->Arr_0),
{
    match json_as_array(v) {
        Some(a) => {
            let ghost items = json_of_value(*v)->Arr_0;
            let mut xs: Vec<Include> = Vec::new();
            let mut i: usize = 0;
            while i < a.len()
                invariant
                    i <= a.len(),
                    json_of_value(*v) == Json::Arr(items),
                    items == a@.map_values(|x: serde_json::Value| json_of_value(x)),
                    items.len() == a@.len(),
                    xs@.len() == i as int,
                    forall|j: int|
                        0 <= j < i ==> (#[trigger] items[j]) is Str && include_of_text(
                            items[j]->Str_0,
                        ) is Some,
                    forall|j: int|
                        0 <= j < i ==> #[trigger] xs@[j] == include_of_text_or_default(
                            items[j]->Str_0,
                        ),
                decreases a.len() - i,
            {
                proof {
                    assert(items[i as int] == json_of_value(a@[i as int]));
                }
                match json_as_str(&a[i]) {
                    Some(s) => {
                        if str_eq(s, "distances") {
                            xs.push(Include::Distances);
                        } else if str_eq(s, "documents") {
                            xs.push(Include::Documents);
                        } else if str_eq(s, "embeddings") {
                            xs.push(Include::Embeddings);
                        } else if str_eq(s, "metadatas") {
                            xs.push(Include::Metadatas);
                        } else if str_eq(s, "uris") {
                            xs.push(Include::Uris);
                        } else {
                            return Err(());
                        }
                    },
                    None => {
                        return Err(());
                    },
                }
                i += 1;
            }
            proof {
                assert(xs@ =~= include_item_vals(items));
            }
            Ok(xs)
        },
        None => Err(()),
    }
}

pub(crate) fn encode_includes(xs: &Vec<Include>) -> (r: serde_json::Value)
    ensures
        json_of_value(r) == includes_json(xs@),
{
    let mut out: Vec<serde_json::Value> = Vec::new();
    let mut i: usize = 0;
    while i < xs.len()
        invariant
            i <= xs.len(),
            out@.len() == i as int,
            forall|j: int|
                0 <= j < i ==> #[trigger] json_of_value(out@[j]) == Json::Str(
                    include_text(xs@[j]),
                ),
        decreases xs.len() - i,
    {
        out.push(json_string(include_as_str(xs[i])));
        i += 1;
    }
    let r = json_array(out);
    proof {
        assert(json_of_value(r)->Arr_0 =~= includes_json(xs@)->Arr_0);
    }
    r
}

// --- encoding: rows ---------------------------------------------------------

pub open spec fn opt_str_json(o: Option<Seq<char>>) -> Json {
    match o {
        Some(s) => Json::Str(s),
        None => Json::Null,
    }
}

/// The array a vector of nullable strings serializes to.
pub open spec fn opt_strings_json(xs: Seq<Option<Seq<char>>>) -> Json {
    Json::Arr(xs.map_values(|o: Option<Seq<char>>| opt_str_json(o)))
}

pub(crate) fn encode_opt_strings(xs: &Vec<Option<String>>) -> (r: serde_json::Value)
    ensures
        json_of_value(r) == opt_strings_json(xs.deep_view()),
{
    let mut out: Vec<serde_json::Value> = Vec::new();
    let mut i: usize = 0;
    while i < xs.len()
        invariant
            i <= xs.len(),
            out@.len() == i as int,
            xs.deep_view().len() == xs@.len(),
            forall|j: int|
                0 <= j < i ==> #[trigger] json_of_value(out@[j]) == opt_str_json(
                    xs.deep_view()[j],
                ),
        decreases xs.len() - i,
    {
        match &xs[i] {
            Some(s) => {
                out.push(json_string(s.as_str()));
            },
            None => {
                out.push(json_null());
            },
        }
        proof {
            assert(xs.deep_view()[i as int] == match xs@[i as int] {
                Some(s) => Some(s@),
                None => None::<Seq<char>>,
            });
        }
        i += 1;
    }
    let r = json_array(out);
    proof {
        assert(json_of_value(r)->Arr_0 =~= opt_strings_json(xs.deep_view())->Arr_0);
    }
    r
}

/// True when every numeral text in the row is a JSON number.
pub open spec fn nums_encodable(xs: Seq<Seq<char>>) -> bool {
    forall|i: int| 0 <= i < xs.len() ==> num_of_text(#[trigger] xs[i]) is Some
}

/// The array a row of numeral texts serializes to.
pub open spec fn nums_json(xs: Seq<Seq<char>>) -> Json {
    Json::Arr(xs.map_values(|t: Seq<char>| num_json(t)))
}

pub(crate) fn encode_nums(xs: &Vec<String>) -> (r: Result<serde_json::Value, ()>)
    ensures
        r is Ok <==> nums_encodable(xs.deep_view()),
        r matches Ok(v) ==> json_of_value(v) == nums_json(xs.deep_view()),
{
    let mut out: Vec<serde_json::Value> = Vec::new();
    let mut i: usize = 0;
    while i < xs.len()
        invariant
            i <= xs.len(),
            out@.len() == i as int,
            xs.deep_view().len() == xs@.len(),
            forall|j: int| 0 <= j < i ==> num_of_text(#[trigger] xs.deep_view()[j]) is Some,
            forall|j: int|
                0 <= j < i ==> #[trigger] json_of_value(out@[j]) == num_json(xs.deep_view()[j]),
        decreases xs.len() - i,
    {
        proof {
            assert(xs.deep_view()[i as int] == xs@[i as int]@);
        }
        match json_number_from_text(xs[i].as_str()) {
            Some(v) => {
                out.push(v);
            },
            None => {
                return Err(());
            },
        }
        i += 1;
    }
    let r = json_array(out);
    proof {
        assert(json_of_value(r)->Arr_0 =~= nums_json(xs.deep_view())->Arr_0);
    }
    Ok(r)
}

pub open spec fn num_matrix_encodable(xss: Seq<Seq<Seq<char>>>) -> bool {
    forall|i: int| 0 <= i < xss.len() ==> nums_encodable(#[trigger] xss[i])
}

/// The array a matrix of numeral texts serializes to.
pub open spec fn num_matrix_json(xss: Seq<Seq<Seq<char>>>) -> Json {
    Json::Arr(xss.map_values(|xs: Seq<Seq<char>>| nums_json(xs)))
}

pub(crate) fn encode_num_matrix(xss: &Vec<Vec<String>>) -> (r: Result<serde_json::Value, ()>)
    ensures
        r is Ok <==> num_matrix_encodable(xss.deep_view()),
        r matches Ok(v) ==> json_of_value(v) == num_matrix_json(xss.deep_view()),
{
    let mut out: Vec<serde_json::Value> = Vec::new();
    let mut i: usize = 0;
    while i < xss.len()
        invariant
            i <= xss.len(),
            out@.len() == i as int,
            xss.deep_view().len() == xss@.len(),
            forall|j: int| 0 <= j < i ==> nums_encodable(#[trigger] xss.deep_view()[j]),
            forall|j: int|
                0 <= j < i ==> #[trigger] json_of_value(out@[j]) == nums_json(
                    xss.deep_view()[j],
                ),
        decreases xss.len() - i,
    {
        proof {
            assert(xss.deep_view()[i as int] == xss@[i as int].deep_view());
        }
        match encode_nums(&xss[i]) {
            Ok(v) => {
                out.push(v);
            },
            Err(_) => {
                return Err(());
            },
        }
        i += 1;
    }
    let r = json_array(out);
    proof {
        assert(json_of_value(r)->Arr_0 =~= num_matrix_json(xss.deep_view())->Arr_0);
    }
    Ok(r)
}

pub open spec fn opt_num_row_encodable(o: Option<Seq<Seq<char>>>) -> bool {
    match o {
        Some(xs) => nums_encodable(xs),
        None => true,
    }
}

pub open spec fn opt_num_row_json(o: Option<Seq<Seq<char>>>) -> Json {
    match o {
        Some(xs) => nums_json(xs),
        None => Json::Null,
    }
}

pub open spec fn opt_num_rows_encodable(xss: Seq<Option<Seq<Seq<char>>>>) -> bool {
    forall|i: int| 0 <= i < xss.len() ==> opt_num_row_encodable(#[trigger] xss[i])
}

/// The array a vector of nullable numeral rows serializes to.
pub open spec fn opt_num_rows_json(xss: Seq<Option<Seq<Seq<char>>>>) -> Json {
    Json::Arr(xss.map_values(|o: Option<Seq<Seq<char>>>| opt_num_row_json(o)))
}

pub(crate) fn encode_opt_num_rows(xss: &Vec<Option<Vec<String>>>) -> (r: Result<
    serde_json::Value,
    (),
>)
    ensures
        r is Ok <==> opt_num_rows_encodable(xss.deep_view()),
        r matches Ok(v) ==> json_of_value(v) == opt_num_rows_json(xss.deep_view()),
{
    let mut out: Vec<serde_json::Value> = Vec::new();
    let mut i: usize = 0;
    while i < xss.len()
        invariant
            i <= xss.len(),
            out@.len() == i as int,
            xss.deep_view().len() == xss@.len(),
            forall|j: int| 0 <= j < i ==> opt_num_row_encodable(#[trigger] xss.deep_view()[j]),
            forall|j: int|
                0 <= j < i ==> #[trigger] json_of_value(out@[j]) == opt_num_row_json(
                    xss.deep_view()[j],
                ),
        decreases xss.len() - i,
    {
        proof {
            assert(xss.deep_view()[i as int] == match xss@[i as int] {
                Some(row) => Some(row.deep_view()),
                None => None::<Seq<Seq<char>>>,
            });
        }
        match &xss[i] {
            Some(row) => match encode_nums(row) {
                Ok(v) => {
                    out.push(v);
                },
                Err(_) => {
                    return Err(());
                },
            },
            None => {
                out.push(json_null());
            },
        }
        i += 1;
    }
    let r = json_array(out);
    proof {
        assert(json_of_value(r)->Arr_0 =~= opt_num_rows_json(xss.deep_view())->Arr_0);
    }
    Ok(r)
}

/// The array a vector of nullable opaque objects serializes to.
pub open spec fn opt_values_json(s: Seq<Option<Json>>) -> Json {
    Json::Arr(
        s.map_values(
            |o: Option<Json>|
                match o {
                    Some(j) => j,
                    None => Json::Null,
                },
        ),
    )
}

pub(crate) fn encode_opt_values(xs: &Vec<Option<serde_json::Value>>) -> (r: serde_json::Value)
    ensures
        json_of_value(r) == opt_values_json(opt_values_model(xs@)),
{
    let mut out: Vec<serde_json::Value> = Vec::new();
    let mut i: usize = 0;
    while i < xs.len()
        invariant
            i <= xs.len(),
            out@.len() == i as int,
            forall|j: int|
                0 <= j < i ==> #[trigger] json_of_value(out@[j]) == (match opt_values_model(
                    xs@,
                )[j] {
                    Some(x) => x,
                    None => Json::Null,
                }),
        decreases xs.len() - i,
    {
        match &xs[i] {
            Some(v) => {
                out.push(json_clone(v));
            },
            None => {
                out.push(json_null());
            },
        }
        i += 1;
    }
    let r = json_array(out);
    proof {
        assert(json_of_value(r)->Arr_0 =~= opt_values_json(opt_values_model(xs@))->Arr_0);
    }
    r
}

} // verus!
