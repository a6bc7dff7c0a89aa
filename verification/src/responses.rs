//! Verified decoders from JSON documents to the typed response shapes.

use vstd::prelude::*;
use crate::arrays::{
    decode_includes, decode_num_matrix, decode_opt_num_cube, decode_opt_num_matrix,
    decode_opt_obj_matrix, decode_opt_objects, decode_opt_str_matrix, decode_opt_strings,
    decode_str_matrix, include_item_vals, include_items_ok, num_matrix_ok, num_matrix_vals,
    opt_num_cube_ok, opt_num_cube_vals, opt_num_matrix_ok, opt_num_matrix_vals, opt_obj_item_vals,
    opt_obj_items_ok, opt_obj_matrix_ok, opt_obj_matrix_vals, opt_str_item_vals, opt_str_items_ok,
    opt_str_matrix_ok, opt_str_matrix_vals, opt_values_model, opt_values_rows_model,
    str_matrix_ok, str_matrix_vals,
};
use crate::codec::{
    decode_strings, fits_i32, fits_i64, i32_of_json, i64_of_json, field_vacant, opt_i32_ok,
    opt_i32_val, opt_obj_ok, opt_obj_val, req_bool_ok, req_i32_ok, req_i64_ok, req_str_ok,
    req_str_val, req_u64_ok, req_u64_val, req_uuid_ok, req_uuid_val, str_item_vals, str_items_ok,
    JsonObj, opt_i32_field, opt_obj_field, req_bool_field, req_i32_field, req_i64_field,
    req_str_field, req_u64_field, req_uuid_field,
};
use crate::config::{config_decodable, config_matches, decode_collection_configuration_value};
use crate::json::{json_as_object, json_as_u64, json_of_value, map_get, Json};
use crate::models::{
    ChecklistResponse, Collection, Database, GetResponse, GetTenantResponse,
    GetUserIdentityResponse, HeartbeatResponse, QueryResponse,
};

verus! {

// --- identity and probes ----------------------------------------------------

pub open spec fn identity_decodable(j: Json) -> bool {
    &&& j is Obj
    &&& req_str_ok(j->Obj_0, "user_id"@)
    &&& req_str_ok(j->Obj_0, "tenant"@)
    &&& (j->Obj_0).dom().contains("databases"@)
    &&& (j->Obj_0)[("databases"@)] is Arr
    &&& str_items_ok((j->Obj_0)[("databases"@)]->Arr_0)
}

pub open spec fn identity_matches(t: GetUserIdentityResponse, j: Json) -> bool {
    &&& t.user_id@ == req_str_val(j->Obj_0, "user_id"@)
    &&& t.tenant@ == req_str_val(j->Obj_0, "tenant"@)
    &&& t.databases.deep_view() == str_item_vals((j->Obj_0)[("databases"@)]->Arr_0)
}

pub fn decode_user_identity(v: &serde_json::Value) -> (r: Result<GetUserIdentityResponse, ()>)
    ensures
        r is Ok <==> identity_decodable(json_of_value(*v)),
        r matches Ok(t) ==> identity_matches(t, json_of_value(*v)),
{
    match json_as_object(v) {
        Some(m) => {
            let user_id = req_str_field(m, "user_id")?;
            let tenant = req_str_field(m, "tenant")?;
            let databases = match map_get(m, "databases") {
                Some(dv) => decode_strings(dv)?,
                None => {
                    return Err(());
                },
            };
            Ok(GetUserIdentityResponse { user_id, tenant, databases })
        },
        None => Err(()),
    }
}

/// The wire key of the heartbeat field is `nanosecond heartbeat`.
pub open spec fn heartbeat_decodable(j: Json) -> bool {
    j is Obj && req_u64_ok(j->Obj_0, "nanosecond heartbeat"@)
}

pub fn decode_heartbeat(v: &serde_json::Value) -> (r: Result<HeartbeatResponse, ()>)
    ensures
        r is Ok <==> heartbeat_decodable(json_of_value(*v)),
        r matches Ok(t) ==> t.nanosecond_heartbeat == req_u64_val(
            json_of_value(*v)->Obj_0,
            "nanosecond heartbeat"@,
        ),
{
    match json_as_object(v) {
        Some(m) => {
            let nanosecond_heartbeat = req_u64_field(m, "nanosecond heartbeat")?;
            Ok(HeartbeatResponse { nanosecond_heartbeat })
        },
        None => Err(()),
    }
}

pub open spec fn checklist_decodable(j: Json) -> bool {
    &&& j is Obj
    &&& req_i32_ok(j->Obj_0, "max_batch_size"@)
    &&& req_bool_ok(j->Obj_0, "supports_base64_encoding"@)
}

pub fn decode_checklist(v: &serde_json::Value) -> (r: Result<ChecklistResponse, ()>)
    ensures
        r is Ok <==> checklist_decodable(json_of_value(*v)),
        r matches Ok(t) ==> t.max_batch_size == i32_of_json(
            json_of_value(*v)->Obj_0[("max_batch_size"@)],
        ) && json_of_value(*v)->Obj_0[("supports_base64_encoding"@)] == Json::Bool(
            t.supports_base64_encoding,
        ),
{
    match json_as_object(v) {
        Some(m) => {
            let max_batch_size = req_i32_field(m, "max_batch_size")?;
            let supports_base64_encoding = req_bool_field(m, "supports_base64_encoding")?;
            Ok(ChecklistResponse { max_batch_size, supports_base64_encoding })
        },
        None => Err(()),
    }
}

pub open spec fn tenant_decodable(j: Json) -> bool {
    j is Obj && req_str_ok(j->Obj_0, "name"@)
}

pub fn decode_get_tenant(v: &serde_json::Value) -> (r: Result<GetTenantResponse, ()>)
    ensures
        r is Ok <==> tenant_decodable(json_of_value(*v)),
        r matches Ok(t) ==> t.name@ == req_str_val(json_of_value(*v)->Obj_0, "name"@),
{
    match json_as_object(v) {
        Some(m) => {
            let name = req_str_field(m, "name")?;
            Ok(GetTenantResponse { name })
        },
        None => Err(()),
    }
}

// --- databases ---------------------------------------------------------------

pub open spec fn database_decodable(j: Json) -> bool {
    &&& j is Obj
    &&& req_uuid_ok(j->Obj_0, "id"@)
    &&& req_str_ok(j->Obj_0, "name"@)
    &&& req_str_ok(j->Obj_0, "tenant"@)
}

pub open spec fn database_matches(d: Database, j: Json) -> bool {
    &&& d.id@ == req_uuid_val(j->Obj_0, "id"@)
    &&& d.name@ == req_str_val(j->Obj_0, "name"@)
    &&& d.tenant@ == req_str_val(j->Obj_0, "tenant"@)
}

pub fn decode_database(v: &serde_json::Value) -> (r: Result<Database, ()>)
    ensures
        r is Ok <==> database_decodable(json_of_value(*v)),
        r matches Ok(d) ==> database_matches(d, json_of_value(*v)),
{
    match json_as_object(v) {
        Some(m) => {
            let id = req_uuid_field(m, "id")?;
            let name = req_str_field(m, "name")?;
            let tenant = req_str_field(m, "tenant")?;
            Ok(Database { id, name, tenant })
        },
        None => Err(()),
    }
}

pub open spec fn databases_decodable(j: Json) -> bool {
    j is Arr && (forall|i: int|
        0 <= i < (j->Arr_0).len() ==> database_decodable(#[trigger] (j->Arr_0)[i]))
}

pub fn decode_databases(v: &serde_json::Value) -> (r: Result<Vec<Database>, ()>)
    ensures
        r is Ok <==> databases_decodable(json_of_value(*v)),
        r matches Ok(xs) ==> {
            &&& xs@.len() == (json_of_value(*v)->Arr_0).len()
            &&& forall|i: int|
                0 <= i < xs@.len() ==> database_matches(
                    #[trigger] xs@[i],
                    (json_of_value(*v)->Arr_0)[i],
                )
        },
{
    match crate::json::json_as_array(v) {
        Some(a) => {
            let ghost items = json_of_value(*v)->Arr_0;
            let mut xs: Vec<Database> = Vec::new();
            let mut i: usize = 0;
            while i < a.len()
                invariant
                    i <= a.len(),
                    json_of_value(*v) == Json::Arr(items),
                    items == a@.map_values(|x: serde_json::Value| json_of_value(x)),
                    items.len() == a@.len(),
                    xs@.len() == i as int,
                    forall|j: int| 0 <= j < i ==> database_decodable(#[trigger] items[j]),
                    forall|j: int|
                        0 <= j < i ==> database_matches(#[trigger] xs@[j], items[j]),
                decreases a.len() - i,
            {
                proof {
                    assert(items[i as int] == json_of_value(a@[i as int]));
                }
                match decode_database(&a[i]) {
                    Ok(d) => {
                        xs.push(d);
                    },
                    Err(_) => {
                        proof {
                            assert((json_of_value(*v)->Arr_0)[i as int] == items[i as int]);
                            assert(!database_decodable(items[i as int]));
                            assert(!databases_decodable(json_of_value(*v)));
                        }
                        return Err(());
                    },
                }
                i += 1;
            }
            Ok(xs)
        },
        None => Err(()),
    }
}

// --- collections -------------------------------------------------------------

pub open spec fn collection_decodable(j: Json) -> bool {
    &&& j is Obj
    &&& req_uuid_ok(j->Obj_0, "id"@)
    &&& req_str_ok(j->Obj_0, "name"@)
    &&& opt_obj_ok(j->Obj_0, "metadata"@)
    &&& (j->Obj_0).dom().contains("configuration_json"@)
    &&& config_decodable((j->Obj_0)[("configuration_json"@)])
    &&& req_str_ok(j->Obj_0, "tenant"@)
    &&& req_str_ok(j->Obj_0, "database"@)
    &&& req_i64_ok(j->Obj_0, "log_position"@)
    &&& req_i32_ok(j->Obj_0, "version"@)
    &&& opt_i32_ok(j->Obj_0, "dimension"@)
}

pub open spec fn collection_matches(c: Collection, j: Json) -> bool {
    &&& c.id@ == req_uuid_val(j->Obj_0, "id"@)
    &&& c.name@ == req_str_val(j->Obj_0, "name"@)
    &&& (match c.metadata {
        Some(v) => Some(json_of_value(v)) == opt_obj_val(j->Obj_0, "metadata"@),
        None => opt_obj_val(j->Obj_0, "metadata"@) is None,
    })
    &&& config_matches(c.configuration_json, (j->Obj_0)[("configuration_json"@)])
    &&& c.configuration_json.wf()
    &&& c.tenant@ == req_str_val(j->Obj_0, "tenant"@)
    &&& c.database@ == req_str_val(j->Obj_0, "database"@)
    &&& c.log_position == i64_of_json((j->Obj_0)[("log_position"@)])
    &&& c.version == i32_of_json((j->Obj_0)[("version"@)])
    &&& c.dimension == opt_i32_val(j->Obj_0, "dimension"@)
}

pub fn decode_collection(v: &serde_json::Value) -> (r: Result<Collection, ()>)
    ensures
        r is Ok <==> collection_decodable(json_of_value(*v)),
        r matches Ok(c) ==> collection_matches(c, json_of_value(*v)),
{
    match json_as_object(v) {
        Some(m) => {
            let id = req_uuid_field(m, "id")?;
            let name = req_str_field(m, "name")?;
            let metadata = opt_obj_field(m, "metadata")?;
            let configuration_json = match map_get(m, "configuration_json") {
                Some(cv) => match decode_collection_configuration_value(cv) {
                    Ok(c) => c,
                    Err(_) => {
                        return Err(());
                    },
                },
                None => {
                    return Err(());
                },
            };
            let tenant = req_str_field(m, "tenant")?;
            let database = req_str_field(m, "database")?;
            let log_position = req_i64_field(m, "log_position")?;
            let version = req_i32_field(m, "version")?;
            let dimension = opt_i32_field(m, "dimension")?;
            Ok(
                Collection {
                    id,
                    name,
                    metadata,
                    configuration_json,
                    tenant,
                    database,
                    log_position,
                    version,
                    dimension,
                },
            )
        },
        None => Err(()),
    }
}

pub open spec fn collections_decodable(j: Json) -> bool {
    j is Arr && (forall|i: int|
        0 <= i < (j->Arr_0).len() ==> collection_decodable(#[trigger] (j->Arr_0)[i]))
}

pub fn decode_collections(v: &serde_json::Value) -> (r: Result<Vec<Collection>, ()>)
    ensures
        r is Ok <==> collections_decodable(json_of_value(*v)),
        r matches Ok(xs) ==> {
            &&& xs@.len() == (json_of_value(*v)->Arr_0).len()
            &&& forall|i: int|
                0 <= i < xs@.len() ==> collection_matches(
                    #[trigger] xs@[i],
                    (json_of_value(*v)->Arr_0)[i],
                )
        },
{
    match crate::json::json_as_array(v) {
        Some(a) => {
            let ghost items = json_of_value(*v)->Arr_0;
            let mut xs: Vec<Collection> = Vec::new();
            let mut i: usize = 0;
            while i < a.len()
                invariant
                    i <= a.len(),
                    json_of_value(*v) == Json::Arr(items),
                    items == a@.map_values(|x: serde_json::Value| json_of_value(x)),
                    items.len() == a@.len(),
                    xs@.len() == i as int,
                    forall|j: int| 0 <= j < i ==> collection_decodable(#[trigger] items[j]),
                    forall|j: int|
                        0 <= j < i ==> collection_matches(#[trigger] xs@[j], items[j]),
                decreases a.len() - i,
            {
                proof {
                    assert(items[i as int] == json_of_value(a@[i as int]));
                }
                match decode_collection(&a[i]) {
                    Ok(c) => {
                        xs.push(c);
                    },
                    Err(_) => {
                        proof {
                            assert((json_of_value(*v)->Arr_0)[i as int] == items[i as int]);
                            assert(!collection_decodable(items[i as int]));
                            assert(!collections_decodable(json_of_value(*v)));
                        }
                        return Err(());
                    },
                }
                i += 1;
            }
            Ok(xs)
        },
        None => Err(()),
    }
}

/// Creating a collection and then fetching it by id pass their responses
/// through the one collection decoder: any two records decoded from the
/// same document agree on `name`, `tenant`, `database` and the
/// configuration (and on `id`), so whenever the server answers both
/// calls with the same record, the caller sees the same fields.
pub proof fn lemma_collection_decode_agrees(c1: Collection, c2: Collection, j: Json)
    requires
        collection_matches(c1, j),
        collection_matches(c2, j),
    ensures
        c1.id@ == c2.id@,
        c1.name@ == c2.name@,
        c1.tenant@ == c2.tenant@,
        c1.database@ == c2.database@,
        crate::config::config_equiv(c1.configuration_json, c2.configuration_json),
{
}

// --- counts ------------------------------------------------------------------

/// A count response is a bare non-negative integer that fits in `u32`.
pub open spec fn count_decodable(j: Json) -> bool {
    j matches Json::UInt(n) && n <= u32::MAX
}

pub fn decode_count(v: &serde_json::Value) -> (r: Result<u32, ()>)
    ensures
        r is Ok <==> count_decodable(json_of_value(*v)),
        r matches Ok(n) ==> json_of_value(*v) == Json::UInt(n as u64),
{
    match json_as_u64(v) {
        Some(n) => if n <= u32::MAX as u64 {
            Ok(n as u32)
        } else {
            Err(())
        },
        None => Err(()),
    }
}

// --- record reads ------------------------------------------------------------

pub open spec fn get_response_decodable(j: Json) -> bool {
    &&& j is Obj
    &&& (j->Obj_0).dom().contains("ids"@)
    &&& (j->Obj_0)[("ids"@)] is Arr
    &&& str_items_ok((j->Obj_0)[("ids"@)]->Arr_0)
    &&& (j->Obj_0).dom().contains("include"@)
    &&& (j->Obj_0)[("include"@)] is Arr
    &&& include_items_ok((j->Obj_0)[("include"@)]->Arr_0)
    &&& (field_vacant(j->Obj_0, "metadatas"@) || ((j->Obj_0)[("metadatas"@)] is Arr
        && opt_obj_items_ok((j->Obj_0)[("metadatas"@)]->Arr_0)))
    &&& (field_vacant(j->Obj_0, "documents"@) || ((j->Obj_0)[("documents"@)] is Arr
        && opt_str_items_ok((j->Obj_0)[("documents"@)]->Arr_0)))
    &&& (field_vacant(j->Obj_0, "uris"@) || ((j->Obj_0)[("uris"@)] is Arr && opt_str_items_ok(
        (j->Obj_0)[("uris"@)]->Arr_0,
    )))
    &&& (field_vacant(j->Obj_0, "embeddings"@) || ((j->Obj_0)[("embeddings"@)] is Arr
        && num_matrix_ok((j->Obj_0)[("embeddings"@)]->Arr_0)))
}

pub open spec fn get_response_matches(t: GetResponse, j: Json) -> bool {
    &&& t.ids.deep_view() == str_item_vals((j->Obj_0)[("ids"@)]->Arr_0)
    &&& t.include_list@ == include_item_vals((j->Obj_0)[("include"@)]->Arr_0)
    &&& (match t.metadatas {
        Some(v) => !field_vacant(j->Obj_0, "metadatas"@) && opt_values_model(v@)
            == opt_obj_item_vals((j->Obj_0)[("metadatas"@)]->Arr_0),
        None => field_vacant(j->Obj_0, "metadatas"@),
    })
    &&& (match t.documents {
        Some(v) => !field_vacant(j->Obj_0, "documents"@) && v.deep_view() == opt_str_item_vals(
            (j->Obj_0)[("documents"@)]->Arr_0,
        ),
        None => field_vacant(j->Obj_0, "documents"@),
    })
    &&& (match t.uris {
        Some(v) => !field_vacant(j->Obj_0, "uris"@) && v.deep_view() == opt_str_item_vals(
            (j->Obj_0)[("uris"@)]->Arr_0,
        ),
        None => field_vacant(j->Obj_0, "uris"@),
    })
    &&& (match t.embeddings {
        Some(v) => !field_vacant(j->Obj_0, "embeddings"@) && v.deep_view() == num_matrix_vals(
            (j->Obj_0)[("embeddings"@)]->Arr_0,
        ),
        None => field_vacant(j->Obj_0, "embeddings"@),
    })
}

pub fn decode_get_response(v: &serde_json::Value) -> (r: Result<GetResponse, ()>)
    ensures
        r is Ok <==> get_response_decodable(json_of_value(*v)),
        r matches Ok(t) ==> get_response_matches(t, json_of_value(*v)),
{
    match json_as_object(v) {
        Some(m) => {
            let ids = match map_get(m, "ids") {
                Some(fv) => decode_strings(fv)?,
                None => {
                    return Err(());
                },
            };
            let include_list = match map_get(m, "include") {
                Some(fv) => decode_includes(fv)?,
                None => {
                    return Err(());
                },
            };
            let metadatas = match map_get(m, "metadatas") {
                Some(fv) => {
                    if crate::json::json_is_null(fv) {
                        None
                    } else {
                        Some(decode_opt_objects(fv)?)
                    }
                },
                None => None,
            };
            let documents = match map_get(m, "documents") {
                Some(fv) => {
                    if crate::json::json_is_null(fv) {
                        None
                    } else {
                        Some(decode_opt_strings(fv)?)
                    }
                },
                None => None,
            };
            let uris = match map_get(m, "uris") {
                Some(fv) => {
                    if crate::json::json_is_null(fv) {
                        None
                    } else {
                        Some(decode_opt_strings(fv)?)
                    }
                },
                None => None,
            };
            let embeddings = match map_get(m, "embeddings") {
                Some(fv) => {
                    if crate::json::json_is_null(fv) {
                        None
                    } else {
                        Some(decode_num_matrix(fv)?)
                    }
                },
                None => None,
            };
            Ok(GetResponse { ids, include_list, metadatas, documents, uris, embeddings })
        },
        None => Err(()),
    }
}

pub open spec fn query_response_decodable(j: Json) -> bool {
    &&& j is Obj
    &&& (j->Obj_0).dom().contains("ids"@)
    &&& (j->Obj_0)[("ids"@)] is Arr
    &&& str_matrix_ok((j->Obj_0)[("ids"@)]->Arr_0)
    &&& (j->Obj_0).dom().contains("include"@)
    &&& (j->Obj_0)[("include"@)] is Arr
    &&& include_items_ok((j->Obj_0)[("include"@)]->Arr_0)
    &&& (field_vacant(j->Obj_0, "distances"@) || ((j->Obj_0)[("distances"@)] is Arr
        && opt_num_matrix_ok((j->Obj_0)[("distances"@)]->Arr_0)))
    &&& (field_vacant(j->Obj_0, "metadatas"@) || ((j->Obj_0)[("metadatas"@)] is Arr
        && opt_obj_matrix_ok((j->Obj_0)[("metadatas"@)]->Arr_0)))
    &&& (field_vacant(j->Obj_0, "documents"@) || ((j->Obj_0)[("documents"@)] is Arr
        && opt_str_matrix_ok((j->Obj_0)[("documents"@)]->Arr_0)))
    &&& (field_vacant(j->Obj_0, "uris"@) || ((j->Obj_0)[("uris"@)] is Arr && opt_str_matrix_ok(
        (j->Obj_0)[("uris"@)]->Arr_0,
    )))
    &&& (field_vacant(j->Obj_0, "embeddings"@) || ((j->Obj_0)[("embeddings"@)] is Arr
        && opt_num_cube_ok((j->Obj_0)[("embeddings"@)]->Arr_0)))
}

pub open spec fn query_response_matches(t: QueryResponse, j: Json) -> bool {
    &&& t.ids.deep_view() == str_matrix_vals((j->Obj_0)[("ids"@)]->Arr_0)
    &&& t.include_list@ == include_item_vals((j->Obj_0)[("include"@)]->Arr_0)
    &&& (match t.distances {
        Some(v) => !field_vacant(j->Obj_0, "distances"@) && v.deep_view()
            == opt_num_matrix_vals((j->Obj_0)[("distances"@)]->Arr_0),
        None => field_vacant(j->Obj_0, "distances"@),
    })
    &&& (match t.metadatas {
        Some(v) => !field_vacant(j->Obj_0, "metadatas"@) && opt_values_rows_model(v@)
            == opt_obj_matrix_vals((j->Obj_0)[("metadatas"@)]->Arr_0),
        None => field_vacant(j->Obj_0, "metadatas"@),
    })
    &&& (match t.documents {
        Some(v) => !field_vacant(j->Obj_0, "documents"@) && v.deep_view()
            == opt_str_matrix_vals((j->Obj_0)[("documents"@)]->Arr_0),
        None => field_vacant(j->Obj_0, "documents"@),
    })
    &&& (match t.uris {
        Some(v) => !field_vacant(j->Obj_0, "uris"@) && v.deep_view() == opt_str_matrix_vals(
            (j->Obj_0)[("uris"@)]->Arr_0,
        ),
        None => field_vacant(j->Obj_0, "uris"@),
    })
    &&& (match t.embeddings {
        Some(v) => !field_vacant(j->Obj_0, "embeddings"@) && v.deep_view() == opt_num_cube_vals(
            (j->Obj_0)[("embeddings"@)]->Arr_0,
        ),
        None => field_vacant(j->Obj_0, "embeddings"@),
    })
}

pub fn decode_query_response(v: &serde_json::Value) -> (r: Result<QueryResponse, ()>)
    ensures
        r is Ok <==> query_response_decodable(json_of_value(*v)),
        r matches Ok(t) ==> query_response_matches(t, json_of_value(*v)),
{
    match json_as_object(v) {
        Some(m) => {
            let ids = match map_get(m, "ids") {
                Some(fv) => decode_str_matrix(fv)?,
                None => {
                    return Err(());
                },
            };
            let include_list = match map_get(m, "include") {
                Some(fv) => decode_includes(fv)?,
                None => {
                    return Err(());
                },
            };
            let distances = match map_get(m, "distances") {
                Some(fv) => {
                    if crate::json::json_is_null(fv) {
                        None
                    } else {
                        Some(decode_opt_num_matrix(fv)?)
                    }
                },
                None => None,
            };
            let metadatas = match map_get(m, "metadatas") {
                Some(fv) => {
                    if crate::json::json_is_null(fv) {
                        None
                    } else {
                        Some(decode_opt_obj_matrix(fv)?)
                    }
                },
                None => None,
            };
            let documents = match map_get(m, "documents") {
                Some(fv) => {
                    if crate::json::json_is_null(fv) {
                        None
                    } else {
                        Some(decode_opt_str_matrix(fv)?)
                    }
                },
                None => None,
            };
            let uris = match map_get(m, "uris") {
                Some(fv) => {
                    if crate::json::json_is_null(fv) {
                        None
                    } else {
                        Some(decode_opt_str_matrix(fv)?)
                    }
                },
                None => None,
            };
            let embeddings = match map_get(m, "embeddings") {
                Some(fv) => {
                    if crate::json::json_is_null(fv) {
                        None
                    } else {
                        Some(decode_opt_num_cube(fv)?)
                    }
                },
                None => None,
            };
            Ok(
                QueryResponse {
                    ids,
                    include_list,
                    distances,
                    metadatas,
                    documents,
                    uris,
                    embeddings,
                },
            )
        },
        None => Err(()),
    }
}

} // verus!
