//! Verified encoders from the request payload types to JSON documents.

use vstd::prelude::*;
use vstd::string::StringExecFns;
use crate::arrays::{
    encode_includes, encode_num_matrix, encode_opt_num_rows, encode_opt_strings,
    encode_opt_values, includes_json, num_matrix_encodable, num_matrix_json,
    opt_num_rows_encodable, opt_num_rows_json, opt_strings_json, opt_values_json,
    opt_values_model,
};
use crate::codec::{encode_strings, strings_json};
use crate::config::{
    config_encodable, config_obj, encode_collection_configuration_value,
    encode_update_collection_configuration, int_json, update_config_encodable, update_config_obj,
};
use crate::error::KhromaError;
use crate::json::{
    depth_le, empty_obj, json_bool, json_clone, json_int, json_object, json_of_text,
    json_of_value, json_print, json_string, map_insert, map_new, Json,
};
use crate::models::{
    AddCollectionRecordsPayload, CreateCollectionPayload, CreateDatabasePayload,
    CreateTenantPayload, DeleteCollectionRecordsPayload, EmbeddingsPayload, ForkCollectionPayload,
    GetRequestPayload, QueryRequestPayload, RawWhereFields, UpdateCollectionPayload,
    UpdateCollectionRecordsPayload, UpdateEmbeddingsPayload, UpsertCollectionRecordsPayload,
};

verus! {

// --- tenant and database ----------------------------------------------------

/// The object a payload with one `name` field serializes to.
pub open spec fn name_obj(name: Seq<char>) -> Map<Seq<char>, Json> {
    empty_obj().insert("name"@, Json::Str(name))
}

/// A payload of one string field nests a single container level.
pub proof fn lemma_name_obj_shallow(name: Seq<char>)
    ensures
        depth_le(Json::Obj(name_obj(name)), 127),
{
    assert forall|k: Seq<char>| name_obj(name).dom().contains(k) implies depth_le(
        #[trigger] name_obj(name)[k],
        126,
    ) by {}
}

pub fn encode_create_tenant(p: &CreateTenantPayload) -> (r: String)
    ensures
        json_of_text(r@) == Some(Json::Obj(name_obj(p.name@))),
{
    let mut m = map_new();
    map_insert(&mut m, "name", json_string(p.name.as_str()));
    proof {
        lemma_name_obj_shallow(p.name@);
    }
    json_print(&json_object(m))
}

pub fn encode_create_database(p: &CreateDatabasePayload) -> (r: String)
    ensures
        json_of_text(r@) == Some(Json::Obj(name_obj(p.name@))),
{
    let mut m = map_new();
    map_insert(&mut m, "name", json_string(p.name.as_str()));
    proof {
        lemma_name_obj_shallow(p.name@);
    }
    json_print(&json_object(m))
}

/// The object a fork payload serializes to.
pub open spec fn fork_obj(new_name: Seq<char>) -> Map<Seq<char>, Json> {
    empty_obj().insert("new_name"@, Json::Str(new_name))
}

pub fn encode_fork_collection(p: &ForkCollectionPayload) -> (r: String)
    ensures
        json_of_text(r@) == Some(Json::Obj(fork_obj(p.new_name@))),
{
    let mut m = map_new();
    map_insert(&mut m, "new_name", json_string(p.new_name.as_str()));
    proof {
        assert forall|k: Seq<char>| fork_obj(p.new_name@).dom().contains(k) implies depth_le(
            #[trigger] fork_obj(p.new_name@)[k],
            126,
        ) by {}
        assert(depth_le(Json::Obj(fork_obj(p.new_name@)), 127));
    }
    json_print(&json_object(m))
}

// --- filter fields ----------------------------------------------------------

/// The entries the flattened filter fields add to an enclosing object:
/// `where_filter` is serialized under the wire key `where`.
pub open spec fn where_entries(m0: Map<Seq<char>, Json>, w: RawWhereFields) -> Map<
    Seq<char>,
    Json,
> {
    let m1 = match w.where_filter {
        Some(v) => m0.insert("where"@, json_of_value(v)),
        None => m0,
    };
    match w.where_document {
        Some(v) => m1.insert("where_document"@, json_of_value(v)),
        None => m1,
    }
}

fn insert_where_fields(m: &mut crate::codec::JsonObj, w: &RawWhereFields)
    ensures
        crate::json::obj_of_map(*final(m)) == where_entries(
            crate::json::obj_of_map(*old(m)),
            *w,
        ),
{
    match &w.where_filter {
        Some(v) => map_insert(m, "where", json_clone(v)),
        None => (),
    }
    match &w.where_document {
        Some(v) => map_insert(m, "where_document", json_clone(v)),
        None => (),
    }
}

// --- collections ------------------------------------------------------------

pub open spec fn create_collection_encodable(p: CreateCollectionPayload) -> bool {
    match p.configuration {
        Some(c) => config_encodable(c),
        None => true,
    }
}

/// The object a collection-creation payload serializes to.
pub open spec fn create_collection_obj(p: CreateCollectionPayload) -> Map<Seq<char>, Json> {
    let m0 = empty_obj().insert("name"@, Json::Str(p.name@));
    let m1 = match p.metadata {
        Some(v) => m0.insert("metadata"@, json_of_value(v)),
        None => m0,
    };
    let m2 = match p.configuration {
        Some(c) => m1.insert("configuration"@, Json::Obj(config_obj(c))),
        None => m1,
    };
    match p.get_or_create {
        Some(b) => m2.insert("get_or_create"@, Json::Bool(b)),
        None => m2,
    }
}

pub fn encode_create_collection(p: &CreateCollectionPayload) -> (r: Result<String, KhromaError>)
    ensures
        r is Ok <==> create_collection_encodable(*p),
        r matches Ok(s) ==> (depth_le(Json::Obj(create_collection_obj(*p)), 127) ==> json_of_text(s@)
            == Some(Json::Obj(create_collection_obj(*p)))),
        r matches Err(e) ==> e is Decode,
{
    let mut m = map_new();
    map_insert(&mut m, "name", json_string(p.name.as_str()));
    match &p.metadata {
        Some(v) => map_insert(&mut m, "metadata", json_clone(v)),
        None => (),
    }
    match &p.configuration {
        Some(c) => match encode_collection_configuration_value(c) {
            Ok(v) => map_insert(&mut m, "configuration", v),
            Err(_) => {
                return Err(
                    KhromaError::Decode(
                        String::from_str("the configuration's resize_factor is not a JSON number"),
                    ),
                );
            },
        },
        None => (),
    }
    match &p.get_or_create {
        Some(b) => map_insert(&mut m, "get_or_create", json_bool(*b)),
        None => (),
    }
    Ok(json_print(&json_object(m)))
}

pub open spec fn update_collection_encodable(p: UpdateCollectionPayload) -> bool {
    match p.new_configuration {
        Some(c) => update_config_encodable(c),
        None => true,
    }
}

/// The object a collection-update payload serializes to.
pub open spec fn update_collection_obj(p: UpdateCollectionPayload) -> Map<Seq<char>, Json> {
    let m0 = empty_obj();
    let m1 = match p.new_name {
        Some(n) => m0.insert("new_name"@, Json::Str(n@)),
        None => m0,
    };
    let m2 = match p.new_metadata {
        Some(v) => m1.insert("new_metadata"@, json_of_value(v)),
        None => m1,
    };
    match p.new_configuration {
        Some(c) => m2.insert("new_configuration"@, Json::Obj(update_config_obj(c))),
        None => m2,
    }
}

pub fn encode_update_collection(p: &UpdateCollectionPayload) -> (r: Result<String, KhromaError>)
    ensures
        r is Ok <==> update_collection_encodable(*p),
        r matches Ok(s) ==> (depth_le(Json::Obj(update_collection_obj(*p)), 127) ==> json_of_text(s@)
            == Some(Json::Obj(update_collection_obj(*p)))),
        r matches Err(e) ==> e is Decode,
{
    let mut m = map_new();
    match &p.new_name {
        Some(n) => map_insert(&mut m, "new_name", json_string(n.as_str())),
        None => (),
    }
    match &p.new_metadata {
        Some(v) => map_insert(&mut m, "new_metadata", json_clone(v)),
        None => (),
    }
    match &p.new_configuration {
        Some(c) => match encode_update_collection_configuration(c) {
            Ok(v) => map_insert(&mut m, "new_configuration", v),
            Err(_) => {
                return Err(
                    KhromaError::Decode(
                        String::from_str("the configuration's resize_factor is not a JSON number"),
                    ),
                );
            },
        },
        None => (),
    }
    Ok(json_print(&json_object(m)))
}

// --- record payloads --------------------------------------------------------

pub open spec fn embeddings_encodable(e: EmbeddingsPayload) -> bool {
    match e {
        EmbeddingsPayload::Dense(m) => num_matrix_encodable(m.deep_view()),
        EmbeddingsPayload::Source(_) => true,
    }
}

/// The array an embeddings payload serializes to: dense vectors of
/// numbers, or source strings, selected by shape.
pub open spec fn embeddings_json(e: EmbeddingsPayload) -> Json {
    match e {
        EmbeddingsPayload::Dense(m) => num_matrix_json(m.deep_view()),
        EmbeddingsPayload::Source(xs) => strings_json(xs.deep_view()),
    }
}

fn encode_embeddings(e: &EmbeddingsPayload) -> (r: Result<serde_json::Value, ()>)
    ensures
        r is Ok <==> embeddings_encodable(*e),
        r matches Ok(v) ==> json_of_value(v) == embeddings_json(*e),
{
    match e {
        EmbeddingsPayload::Dense(m) => encode_num_matrix(m),
        EmbeddingsPayload::Source(xs) => Ok(encode_strings(xs)),
    }
}

pub open spec fn update_embeddings_encodable(e: UpdateEmbeddingsPayload) -> bool {
    match e {
        UpdateEmbeddingsPayload::Dense(m) => opt_num_rows_encodable(m.deep_view()),
        UpdateEmbeddingsPayload::Source(_) => true,
    }
}

/// The array an update-embeddings payload serializes to; a record
/// without an entry serializes as null.
pub open spec fn update_embeddings_json(e: UpdateEmbeddingsPayload) -> Json {
    match e {
        UpdateEmbeddingsPayload::Dense(m) => opt_num_rows_json(m.deep_view()),
        UpdateEmbeddingsPayload::Source(xs) => opt_strings_json(xs.deep_view()),
    }
}

fn encode_update_embeddings(e: &UpdateEmbeddingsPayload) -> (r: Result<serde_json::Value, ()>)
    ensures
        r is Ok <==> update_embeddings_encodable(*e),
        r matches Ok(v) ==> json_of_value(v) == update_embeddings_json(*e),
{
    match e {
        UpdateEmbeddingsPayload::Dense(m) => encode_opt_num_rows(m),
        UpdateEmbeddingsPayload::Source(xs) => Ok(encode_opt_strings(xs)),
    }
}

pub open spec fn add_records_encodable(p: AddCollectionRecordsPayload) -> bool {
    match p.embeddings {
        Some(e) => embeddings_encodable(e),
        None => true,
    }
}

/// The object an add-records payload serializes to: the parallel
/// sequences, each present exactly when supplied.
pub open spec fn add_records_obj(p: AddCollectionRecordsPayload) -> Map<Seq<char>, Json> {
    let m0 = empty_obj().insert("ids"@, strings_json(p.ids.deep_view()));
    let m1 = match p.embeddings {
        Some(e) => m0.insert("embeddings"@, embeddings_json(e)),
        None => m0,
    };
    let m2 = match p.metadatas {
        Some(v) => m1.insert("metadatas"@, opt_values_json(opt_values_model(v@))),
        None => m1,
    };
    let m3 = match p.documents {
        Some(v) => m2.insert("documents"@, opt_strings_json(v.deep_view())),
        None => m2,
    };
    match p.uris {
        Some(v) => m3.insert("uris"@, opt_strings_json(v.deep_view())),
        None => m3,
    }
}

pub fn encode_add_records(p: &AddCollectionRecordsPayload) -> (r: Result<String, KhromaError>)
    ensures
        r is Ok <==> add_records_encodable(*p),
        r matches Ok(s) ==> (depth_le(Json::Obj(add_records_obj(*p)), 127) ==> json_of_text(s@)
            == Some(Json::Obj(add_records_obj(*p)))),
        r matches Err(e) ==> e is Decode,
{
    let mut m = map_new();
    map_insert(&mut m, "ids", encode_strings(&p.ids));
    match &p.embeddings {
        Some(e) => match encode_embeddings(e) {
            Ok(v) => map_insert(&mut m, "embeddings", v),
            Err(_) => {
                return Err(
                    KhromaError::Decode(
                        String::from_str("an embedding component is not a JSON number"),
                    ),
                );
            },
        },
        None => (),
    }
    match &p.metadatas {
        Some(v) => map_insert(&mut m, "metadatas", encode_opt_values(v)),
        None => (),
    }
    match &p.documents {
        Some(v) => map_insert(&mut m, "documents", encode_opt_strings(v)),
        None => (),
    }
    match &p.uris {
        Some(v) => map_insert(&mut m, "uris", encode_opt_strings(v)),
        None => (),
    }
    Ok(json_print(&json_object(m)))
}

/// The client never validates parallel-sequence lengths: whether an
/// add-records payload encodes depends on its embeddings alone, never on
/// the lengths of `ids`, `metadatas`, `documents` or `uris`; a mismatch
/// is the server's to reject.
pub proof fn lemma_parallel_lengths_unchecked(
    a: AddCollectionRecordsPayload,
    b: AddCollectionRecordsPayload,
)
    requires
        a.embeddings == b.embeddings,
    ensures
        add_records_encodable(a) == add_records_encodable(b),
{
}

pub open spec fn upsert_records_encodable(p: UpsertCollectionRecordsPayload) -> bool {
    match p.embeddings {
        Some(e) => embeddings_encodable(e),
        None => true,
    }
}

/// The object an upsert-records payload serializes to; the shape is the
/// same as for adding records.
pub open spec fn upsert_records_obj(p: UpsertCollectionRecordsPayload) -> Map<Seq<char>, Json> {
    let m0 = empty_obj().insert("ids"@, strings_json(p.ids.deep_view()));
    let m1 = match p.embeddings {
        Some(e) => m0.insert("embeddings"@, embeddings_json(e)),
        None => m0,
    };
    let m2 = match p.metadatas {
        Some(v) => m1.insert("metadatas"@, opt_values_json(opt_values_model(v@))),
        None => m1,
    };
    let m3 = match p.documents {
        Some(v) => m2.insert("documents"@, opt_strings_json(v.deep_view())),
        None => m2,
    };
    match p.uris {
        Some(v) => m3.insert("uris"@, opt_strings_json(v.deep_view())),
        None => m3,
    }
}

pub fn encode_upsert_records(p: &UpsertCollectionRecordsPayload) -> (r: Result<
    String,
    KhromaError,
>)
    ensures
        r is Ok <==> upsert_records_encodable(*p),
        r matches Ok(s) ==> (depth_le(Json::Obj(upsert_records_obj(*p)), 127) ==> json_of_text(s@)
            == Some(Json::Obj(upsert_records_obj(*p)))),
        r matches Err(e) ==> e is Decode,
{
    let mut m = map_new();
    map_insert(&mut m, "ids", encode_strings(&p.ids));
    match &p.embeddings {
        Some(e) => match encode_embeddings(e) {
            Ok(v) => map_insert(&mut m, "embeddings", v),
            Err(_) => {
                return Err(
                    KhromaError::Decode(
                        String::from_str("an embedding component is not a JSON number"),
                    ),
                );
            },
        },
        None => (),
    }
    match &p.metadatas {
        Some(v) => map_insert(&mut m, "metadatas", encode_opt_values(v)),
        None => (),
    }
    match &p.documents {
        Some(v) => map_insert(&mut m, "documents", encode_opt_strings(v)),
        None => (),
    }
    match &p.uris {
        Some(v) => map_insert(&mut m, "uris", encode_opt_strings(v)),
        None => (),
    }
    Ok(json_print(&json_object(m)))
}

pub open spec fn update_records_encodable(p: UpdateCollectionRecordsPayload) -> bool {
    match p.embeddings {
        Some(e) => update_embeddings_encodable(e),
        None => true,
    }
}

/// The object an update-records payload serializes to.
pub open spec fn update_records_obj(p: UpdateCollectionRecordsPayload) -> Map<Seq<char>, Json> {
    let m0 = empty_obj().insert("ids"@, strings_json(p.ids.deep_view()));
    let m1 = match p.embeddings {
        Some(e) => m0.insert("embeddings"@, update_embeddings_json(e)),
        None => m0,
    };
    let m2 = match p.metadatas {
        Some(v) => m1.insert("metadatas"@, opt_values_json(opt_values_model(v@))),
        None => m1,
    };
    let m3 = match p.documents {
        Some(v) => m2.insert("documents"@, opt_strings_json(v.deep_view())),
        None => m2,
    };
    match p.uris {
        Some(v) => m3.insert("uris"@, opt_strings_json(v.deep_view())),
        None => m3,
    }
}

pub fn encode_update_records(p: &UpdateCollectionRecordsPayload) -> (r: Result<
    String,
    KhromaError,
>)
    ensures
        r is Ok <==> update_records_encodable(*p),
        r matches Ok(s) ==> (depth_le(Json::Obj(update_records_obj(*p)), 127) ==> json_of_text(s@)
            == Some(Json::Obj(update_records_obj(*p)))),
        r matches Err(e) ==> e is Decode,
{
    let mut m = map_new();
    map_insert(&mut m, "ids", encode_strings(&p.ids));
    match &p.embeddings {
        Some(e) => match encode_update_embeddings(e) {
            Ok(v) => map_insert(&mut m, "embeddings", v),
            Err(_) => {
                return Err(
                    KhromaError::Decode(
                        String::from_str("an embedding component is not a JSON number"),
                    ),
                );
            },
        },
        None => (),
    }
    match &p.metadatas {
        Some(v) => map_insert(&mut m, "metadatas", encode_opt_values(v)),
        None => (),
    }
    match &p.documents {
        Some(v) => map_insert(&mut m, "documents", encode_opt_strings(v)),
        None => (),
    }
    match &p.uris {
        Some(v) => map_insert(&mut m, "uris", encode_opt_strings(v)),
        None => (),
    }
    Ok(json_print(&json_object(m)))
}

/// The object a delete-records payload serializes to: the flattened
/// filter fields beside the optional ids.
pub open spec fn delete_records_obj(p: DeleteCollectionRecordsPayload) -> Map<Seq<char>, Json> {
    let m1 = where_entries(empty_obj(), p.where_fields);
    match p.ids {
        Some(v) => m1.insert("ids"@, strings_json(v.deep_view())),
        None => m1,
    }
}

pub fn encode_delete_records(p: &DeleteCollectionRecordsPayload) -> (r: String)
    ensures
        depth_le(Json::Obj(delete_records_obj(*p)), 127) ==> json_of_text(r@) == Some(
            Json::Obj(delete_records_obj(*p)),
        ),
{
    let mut m = map_new();
    insert_where_fields(&mut m, &p.where_fields);
    match &p.ids {
        Some(v) => map_insert(&mut m, "ids", encode_strings(v)),
        None => (),
    }
    json_print(&json_object(m))
}

/// The object a get-records payload serializes to.
pub open spec fn get_request_obj(p: GetRequestPayload) -> Map<Seq<char>, Json> {
    let m1 = where_entries(empty_obj(), p.where_fields);
    let m2 = match p.ids {
        Some(v) => m1.insert("ids"@, strings_json(v.deep_view())),
        None => m1,
    };
    let m3 = match p.include_list {
        Some(v) => m2.insert("include"@, includes_json(v@)),
        None => m2,
    };
    let m4 = match p.limit {
        Some(n) => m3.insert("limit"@, int_json(n as int)),
        None => m3,
    };
    match p.offset {
        Some(n) => m4.insert("offset"@, int_json(n as int)),
        None => m4,
    }
}

pub fn encode_get_request(p: &GetRequestPayload) -> (r: String)
    ensures
        depth_le(Json::Obj(get_request_obj(*p)), 127) ==> json_of_text(r@) == Some(
            Json::Obj(get_request_obj(*p)),
        ),
{
    let mut m = map_new();
    insert_where_fields(&mut m, &p.where_fields);
    match &p.ids {
        Some(v) => map_insert(&mut m, "ids", encode_strings(v)),
        None => (),
    }
    match &p.include_list {
        Some(v) => map_insert(&mut m, "include", encode_includes(v)),
        None => (),
    }
    match &p.limit {
        Some(n) => map_insert(&mut m, "limit", json_int(*n as i64)),
        None => (),
    }
    match &p.offset {
        Some(n) => map_insert(&mut m, "offset", json_int(*n as i64)),
        None => (),
    }
    json_print(&json_object(m))
}

pub open spec fn query_request_encodable(p: QueryRequestPayload) -> bool {
    num_matrix_encodable(p.query_embeddings.deep_view())
}

/// The object a query payload serializes to.
pub open spec fn query_request_obj(p: QueryRequestPayload) -> Map<Seq<char>, Json> {
    let m1 = where_entries(empty_obj(), p.where_fields);
    let m2 = m1.insert("query_embeddings"@, num_matrix_json(p.query_embeddings.deep_view()));
    let m3 = match p.ids {
        Some(v) => m2.insert("ids"@, strings_json(v.deep_view())),
        None => m2,
    };
    let m4 = match p.include_list {
        Some(v) => m3.insert("include"@, includes_json(v@)),
        None => m3,
    };
    match p.n_results {
        Some(n) => m4.insert("n_results"@, int_json(n as int)),
        None => m4,
    }
}

pub fn encode_query_request(p: &QueryRequestPayload) -> (r: Result<String, KhromaError>)
    ensures
        r is Ok <==> query_request_encodable(*p),
        r matches Ok(s) ==> (depth_le(Json::Obj(query_request_obj(*p)), 127) ==> json_of_text(s@)
            == Some(Json::Obj(query_request_obj(*p)))),
        r matches Err(e) ==> e is Decode,
{
    let mut m = map_new();
    insert_where_fields(&mut m, &p.where_fields);
    match encode_num_matrix(&p.query_embeddings) {
        Ok(v) => map_insert(&mut m, "query_embeddings", v),
        Err(_) => {
            return Err(
                KhromaError::Decode(
                    String::from_str("a query embedding component is not a JSON number"),
                ),
            );
        },
    }
    match &p.ids {
        Some(v) => map_insert(&mut m, "ids", encode_strings(v)),
        None => (),
    }
    match &p.include_list {
        Some(v) => map_insert(&mut m, "include", encode_includes(v)),
        None => (),
    }
    match &p.n_results {
        Some(n) => map_insert(&mut m, "n_results", json_int(*n as i64)),
        None => (),
    }
    Ok(json_print(&json_object(m)))
}

} // verus!
