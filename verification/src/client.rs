//! The low-level client: one request builder and one response parser per
//! API endpoint. Builders compose the target URL, the query parameters
//! and the serialized body into a transport-neutral `RequestSpec`; the
//! caller performs the exchange and hands the status and body back to
//! the endpoint's response parser.

use vstd::prelude::*;
use vstd::string::StringExecFns;
use crate::dispatch::{
    api_message, bool_of_text, handle_response, handle_text_response, is_success,
    parse_bool_text,
};
use crate::error::KhromaError;
use crate::json::{depth_le, json_of_text, Json};
use crate::models::{
    AddCollectionRecordsPayload, AddCollectionRecordsResponse, ChecklistResponse, Collection,
    CreateCollectionPayload, CreateDatabasePayload, CreateDatabaseResponse, CreateTenantPayload,
    CreateTenantResponse, Database, DeleteCollectionRecordsPayload,
    DeleteCollectionRecordsResponse, DeleteDatabaseResponse, ForkCollectionPayload,
    GetRequestPayload, GetResponse, GetTenantResponse, GetUserIdentityResponse,
    HeartbeatResponse, QueryRequestPayload, QueryResponse, UpdateCollectionPayload,
    UpdateCollectionRecordsPayload, UpdateCollectionRecordsResponse, UpdateCollectionResponse,
    UpsertCollectionRecordsPayload, UpsertCollectionRecordsResponse,
};
use crate::codec::{check_empty_struct, empty_struct_decodable};
use crate::payloads::{
    add_records_encodable, add_records_obj, create_collection_encodable, create_collection_obj,
    delete_records_obj, encode_add_records, encode_create_collection, encode_create_database,
    encode_create_tenant, encode_delete_records, encode_fork_collection, encode_get_request,
    encode_query_request, encode_update_collection, encode_update_records,
    encode_upsert_records, fork_obj, get_request_obj, name_obj, query_request_encodable,
    query_request_obj, update_collection_encodable, update_collection_obj,
    update_records_encodable, update_records_obj, upsert_records_encodable, upsert_records_obj,
};
use crate::responses::{
    checklist_decodable, collection_decodable, collection_matches, collections_decodable,
    count_decodable, database_decodable, database_matches, databases_decodable,
    decode_checklist, decode_collection, decode_collections, decode_count, decode_database,
    decode_databases, decode_get_response, decode_get_tenant, decode_heartbeat,
    decode_query_response, decode_user_identity, get_response_decodable, get_response_matches,
    heartbeat_decodable, identity_decodable, identity_matches, query_response_decodable,
    query_response_matches, tenant_decodable,
};
use crate::text::{dec_int, i64_to_string};

verus! {

// --- the URL edge -------------------------------------------------------------

/// What parsing an address yields: `None` when the text is not a valid
/// URL, else its normalized serialization.
pub uninterp spec fn url_norm(s: Seq<char>) -> Option<Seq<char>>;

/// Relies on `url::Url::parse` and the `Display` of `url::Url`: parses
/// per the URL standard and renders the normalized serialization, which
/// depends on the text alone. The error text is the parse error's own.
#[verifier::external_body]
fn url_validate(s: &str) -> (r: Result<String, String>)
    ensures
        r is Ok <==> url_norm(s@) is Some,
        r matches Ok(t) ==> Some(t@) == url_norm(s@),
{
    match url::Url::parse(s) {
        Ok(u) => Ok(u.to_string()),
        Err(e) => Err(format!("{}", e)),
    }
}

/// What joining a path onto a base address yields: `None` when the base
/// does not parse or the join fails, else the target's serialization.
pub uninterp spec fn url_joined(base: Seq<char>, path: Seq<char>) -> Option<Seq<char>>;

/// Relies on `url::Url::parse` followed by `url::Url::join` and the
/// `Display` of `url::Url`: the request target of a path relative to a
/// base address, which depends on the two texts alone.
#[verifier::external_body]
fn url_join(base: &str, path: &str) -> (r: Result<String, String>)
    ensures
        r is Ok <==> url_joined(base@, path@) is Some,
        r matches Ok(t) ==> Some(t@) == url_joined(base@, path@),
{
    match url::Url::parse(base) {
        Ok(u) => match u.join(path) {
            Ok(t) => Ok(t.to_string()),
            Err(e) => Err(format!("{}", e)),
        },
        Err(e) => Err(format!("{}", e)),
    }
}

// --- the request model --------------------------------------------------------

#[derive(Clone, Copy, PartialEq, Eq, Structural, Debug)]
pub enum Method {
    Get,
    Post,
    Put,
    Delete,
}

/// Everything the transport needs to perform one request: the method,
/// the joined target URL, the query parameters (attached only when
/// present), the optional authentication token for the
/// `x-chroma-token` header, and the serialized body.
pub struct RequestSpec {
    pub method: Method,
    pub url: String,
    pub query: Vec<(String, String)>,
    pub token: Option<String>,
    pub body: Option<String>,
}

// --- paths ---------------------------------------------------------------------

pub open spec fn tenants_path() -> Seq<char> {
    "/api/v2/tenants"@
}

pub open spec fn tenant_path(t: Seq<char>) -> Seq<char> {
    "/api/v2/tenants/"@ + t
}

pub open spec fn databases_path(t: Seq<char>) -> Seq<char> {
    tenant_path(t) + "/databases"@
}

pub open spec fn database_path(t: Seq<char>, d: Seq<char>) -> Seq<char> {
    databases_path(t) + "/"@ + d
}

pub open spec fn collections_path(t: Seq<char>, d: Seq<char>) -> Seq<char> {
    database_path(t, d) + "/collections"@
}

pub open spec fn collections_count_path(t: Seq<char>, d: Seq<char>) -> Seq<char> {
    database_path(t, d) + "/collections_count"@
}

pub open spec fn collection_path(t: Seq<char>, d: Seq<char>, c: Seq<char>) -> Seq<char> {
    collections_path(t, d) + "/"@ + c
}

pub open spec fn collection_op_path(t: Seq<char>, d: Seq<char>, c: Seq<char>, op: Seq<char>)
    -> Seq<char> {
    collection_path(t, d, c) + "/"@ + op
}

fn make_tenant_path(tenant: &str) -> (r: String)
    ensures
        r@ == tenant_path(tenant@),
{
    let mut s = String::from_str("/api/v2/tenants/");
    s.append(tenant);
    s
}

fn make_databases_path(tenant: &str) -> (r: String)
    ensures
        r@ == databases_path(tenant@),
{
    let mut s = make_tenant_path(tenant);
    s.append("/databases");
    proof {
        assert(s@ =~= databases_path(tenant@));
    }
    s
}

fn make_database_path(tenant: &str, database: &str) -> (r: String)
    ensures
        r@ == database_path(tenant@, database@),
{
    let mut s = make_databases_path(tenant);
    s.append("/");
    s.append(database);
    proof {
        assert(s@ =~= database_path(tenant@, database@));
    }
    s
}

fn make_collections_path(tenant: &str, database: &str) -> (r: String)
    ensures
        r@ == collections_path(tenant@, database@),
{
    let mut s = make_database_path(tenant, database);
    s.append("/collections");
    proof {
        assert(s@ =~= collections_path(tenant@, database@));
    }
    s
}

fn make_collections_count_path(tenant: &str, database: &str) -> (r: String)
    ensures
        r@ == collections_count_path(tenant@, database@),
{
    let mut s = make_database_path(tenant, database);
    s.append("/collections_count");
    proof {
        assert(s@ =~= collections_count_path(tenant@, database@));
    }
    s
}

fn make_collection_path(tenant: &str, database: &str, collection_id: &str) -> (r: String)
    ensures
        r@ == collection_path(tenant@, database@, collection_id@),
{
    let mut s = make_collections_path(tenant, database);
    s.append("/");
    s.append(collection_id);
    proof {
        assert(s@ =~= collection_path(tenant@, database@, collection_id@));
    }
    s
}

fn make_collection_op_path(tenant: &str, database: &str, collection_id: &str, op: &str) -> (r:
    String)
    ensures
        r@ == collection_op_path(tenant@, database@, collection_id@, op@),
{
    let mut s = make_collection_path(tenant, database, collection_id);
    s.append("/");
    s.append(op);
    proof {
        assert(s@ =~= collection_op_path(tenant@, database@, collection_id@, op@));
    }
    s
}

// --- query parameters ----------------------------------------------------------

/// The query parameters of a list-style call: `limit` and `offset` are
/// attached only when the caller supplied them; both absent means an
/// empty query.
pub open spec fn limit_offset_spec(limit: Option<i32>, offset: Option<i32>) -> Seq<
    (Seq<char>, Seq<char>),
> {
    let s0 = Seq::<(Seq<char>, Seq<char>)>::empty();
    let s1 = match limit {
        Some(l) => s0.push(("limit"@, dec_int(l as int))),
        None => s0,
    };
    match offset {
        Some(o) => s1.push(("offset"@, dec_int(o as int))),
        None => s1,
    }
}

/// Omitting both `limit` and `offset` produces a request with no query
/// parameters at all, not parameters with a zero value.
pub proof fn lemma_omitted_query_params()
    ensures
        limit_offset_spec(None, None) == Seq::<(Seq<char>, Seq<char>)>::empty(),
{
}

fn no_query() -> (q: Vec<(String, String)>)
    ensures
        q.deep_view() == Seq::<(Seq<char>, Seq<char>)>::empty(),
{
    let q: Vec<(String, String)> = Vec::new();
    proof {
        assert(q.deep_view() =~= Seq::<(Seq<char>, Seq<char>)>::empty());
    }
    q
}

fn limit_offset_query(limit: Option<i32>, offset: Option<i32>) -> (q: Vec<(String, String)>)
    ensures
        q.deep_view() == limit_offset_spec(limit, offset),
{
    let mut q: Vec<(String, String)> = Vec::new();
    match limit {
        Some(l) => {
            q.push((String::from_str("limit"), i64_to_string(l as i64)));
        },
        None => (),
    }
    match offset {
        Some(o) => {
            q.push((String::from_str("offset"), i64_to_string(o as i64)));
        },
        None => (),
    }
    proof {
        assert(q.deep_view() =~= limit_offset_spec(limit, offset));
    }
    q
}

// --- the client -----------------------------------------------------------------

/// The low-level client: the normalized base address and the optional
/// static token sent as the `x-chroma-token` header on every request.
pub struct ChromaClient {
    pub base_url: String,
    pub token: Option<String>,
}

impl ChromaClient {
    /// Validates and normalizes the base address; fails exactly when it
    /// is not a valid URL.
    pub fn new(base_url: &str, token: Option<String>) -> (r: Result<ChromaClient, KhromaError>)
        ensures
            r is Ok <==> url_norm(base_url@) is Some,
            r matches Ok(c) ==> Some(c.base_url@) == url_norm(base_url@) && c.token.deep_view()
                == token.deep_view(),
            r matches Err(e) ==> e is UrlConstruction,
    {
        match url_validate(base_url) {
            Ok(normalized) => Ok(ChromaClient { base_url: normalized, token }),
            Err(detail) => Err(KhromaError::UrlConstruction(detail)),
        }
    }

    /// What a built request must look like: the URL is the path joined
    /// onto the base address, the token is the client's, and the body,
    /// when one is owed, is a document with the payload's model — for
    /// any payload nested within the parser's recursion limit; a deeper
    /// payload still serializes, but its document is not claimed to
    /// parse back.
    pub open spec fn req_matches(
        self,
        r: Result<RequestSpec, KhromaError>,
        method: Method,
        path: Seq<char>,
        query: Seq<(Seq<char>, Seq<char>)>,
        body_doc: Option<Json>,
    ) -> bool {
        match url_joined(self.base_url@, path) {
            Some(u) => r matches Ok(rs) && rs.method == method && rs.url@ == u
                && rs.query.deep_view() == query && rs.token.deep_view() == self.token.deep_view()
                && (match body_doc {
                Some(d) => rs.body matches Some(b) && (depth_le(d, 127) ==> json_of_text(b@)
                    == Some(d)),
                None => rs.body is None,
            }),
            None => r matches Err(e) && e is UrlConstruction,
        }
    }

    fn build_request(
        &self,
        method: Method,
        path: &str,
        query: Vec<(String, String)>,
        body: Option<String>,
    ) -> (r: Result<RequestSpec, KhromaError>)
        ensures
            match url_joined(self.base_url@, path@) {
                Some(u) => r matches Ok(rs) && rs.method == method && rs.url@ == u && rs.query
                    == query && rs.token.deep_view() == self.token.deep_view() && rs.body == body,
                None => r matches Err(e) && e is UrlConstruction,
            },
    {
        match url_join(self.base_url.as_str(), path) {
            Ok(u) => {
                let token = match &self.token {
                    Some(t) => Some(t.clone()),
                    None => None,
                };
                Ok(RequestSpec { method, url: u, query, token, body })
            },
            Err(detail) => Err(KhromaError::UrlConstruction(detail)),
        }
    }

    /// GET `/api/v2/auth/identity`.
    pub fn get_user_identity(&self) -> (r: Result<RequestSpec, KhromaError>)
        ensures
            self.req_matches(r, Method::Get, "/api/v2/auth/identity"@, Seq::empty(), None),
    {
        self.build_request(Method::Get, "/api/v2/auth/identity", no_query(), None)
    }

    /// GET `/api/v2/healthcheck`.
    pub fn healthcheck(&self) -> (r: Result<RequestSpec, KhromaError>)
        ensures
            self.req_matches(r, Method::Get, "/api/v2/healthcheck"@, Seq::empty(), None),
    {
        self.build_request(Method::Get, "/api/v2/healthcheck", no_query(), None)
    }

    /// GET `/api/v2/heartbeat`.
    pub fn heartbeat(&self) -> (r: Result<RequestSpec, KhromaError>)
        ensures
            self.req_matches(r, Method::Get, "/api/v2/heartbeat"@, Seq::empty(), None),
    {
        self.build_request(Method::Get, "/api/v2/heartbeat", no_query(), None)
    }

    /// GET `/api/v2/pre-flight-checks`.
    pub fn pre_flight_checks(&self) -> (r: Result<RequestSpec, KhromaError>)
        ensures
            self.req_matches(r, Method::Get, "/api/v2/pre-flight-checks"@, Seq::empty(), None),
    {
        self.build_request(Method::Get, "/api/v2/pre-flight-checks", no_query(), None)
    }

    /// POST `/api/v2/reset`.
    pub fn reset(&self) -> (r: Result<RequestSpec, KhromaError>)
        ensures
            self.req_matches(r, Method::Post, "/api/v2/reset"@, Seq::empty(), None),
    {
        self.build_request(Method::Post, "/api/v2/reset", no_query(), None)
    }

    /// GET `/api/v2/version`.
    pub fn version(&self) -> (r: Result<RequestSpec, KhromaError>)
        ensures
            self.req_matches(r, Method::Get, "/api/v2/version"@, Seq::empty(), None),
    {
        self.build_request(Method::Get, "/api/v2/version", no_query(), None)
    }

    /// POST `/api/v2/tenants`.
    pub fn create_tenant(&self, payload: &CreateTenantPayload) -> (r: Result<
        RequestSpec,
        KhromaError,
    >)
        ensures
            self.req_matches(
                r,
                Method::Post,
                tenants_path(),
                Seq::empty(),
                Some(Json::Obj(name_obj(payload.name@))),
            ),
            r matches Ok(rs) ==> rs.body matches Some(b) && json_of_text(b@) == Some(
                Json::Obj(name_obj(payload.name@)),
            ),
    {
        let body = encode_create_tenant(payload);
        self.build_request(Method::Post, "/api/v2/tenants", no_query(), Some(body))
    }

    /// GET `/api/v2/tenants/{tenant}`.
    pub fn get_tenant(&self, tenant_name: &str) -> (r: Result<RequestSpec, KhromaError>)
        ensures
            self.req_matches(r, Method::Get, tenant_path(tenant_name@), Seq::empty(), None),
    {
        let path = make_tenant_path(tenant_name);
        self.build_request(Method::Get, path.as_str(), no_query(), None)
    }

    /// GET `/api/v2/tenants/{tenant}/databases`, with `limit` and
    /// `offset` attached only when supplied.
    pub fn list_databases(&self, tenant: &str, limit: Option<i32>, offset: Option<i32>) -> (r:
        Result<RequestSpec, KhromaError>)
        ensures
            self.req_matches(
                r,
                Method::Get,
                databases_path(tenant@),
                limit_offset_spec(limit, offset),
                None,
            ),
    {
        let path = make_databases_path(tenant);
        let query = limit_offset_query(limit, offset);
        self.build_request(Method::Get, path.as_str(), query, None)
    }

    /// POST `/api/v2/tenants/{tenant}/databases`.
    pub fn create_database(&self, tenant: &str, payload: &CreateDatabasePayload) -> (r: Result<
        RequestSpec,
        KhromaError,
    >)
        ensures
            self.req_matches(
                r,
                Method::Post,
                databases_path(tenant@),
                Seq::empty(),
                Some(Json::Obj(name_obj(payload.name@))),
            ),
            r matches Ok(rs) ==> rs.body matches Some(b) && json_of_text(b@) == Some(
                Json::Obj(name_obj(payload.name@)),
            ),
    {
        let path = make_databases_path(tenant);
        let body = encode_create_database(payload);
        self.build_request(Method::Post, path.as_str(), no_query(), Some(body))
    }

    /// GET `/api/v2/tenants/{tenant}/databases/{database}`.
    pub fn get_database(&self, tenant: &str, database: &str) -> (r: Result<
        RequestSpec,
        KhromaError,
    >)
        ensures
            self.req_matches(
                r,
                Method::Get,
                database_path(tenant@, database@),
                Seq::empty(),
                None,
            ),
    {
        let path = make_database_path(tenant, database);
        self.build_request(Method::Get, path.as_str(), no_query(), None)
    }

    /// DELETE `/api/v2/tenants/{tenant}/databases/{database}`.
    pub fn delete_database(&self, tenant: &str, database: &str) -> (r: Result<
        RequestSpec,
        KhromaError,
    >)
        ensures
            self.req_matches(
                r,
                Method::Delete,
                database_path(tenant@, database@),
                Seq::empty(),
                None,
            ),
    {
        let path = make_database_path(tenant, database);
        self.build_request(Method::Delete, path.as_str(), no_query(), None)
    }

    /// GET `.../collections`, with `limit` and `offset` attached only
    /// when supplied.
    pub fn list_collections(
        &self,
        tenant: &str,
        database: &str,
        limit: Option<i32>,
        offset: Option<i32>,
    ) -> (r: Result<RequestSpec, KhromaError>)
        ensures
            self.req_matches(
                r,
                Method::Get,
                collections_path(tenant@, database@),
                limit_offset_spec(limit, offset),
                None,
            ),
    {
        let path = make_collections_path(tenant, database);
        let query = limit_offset_query(limit, offset);
        self.build_request(Method::Get, path.as_str(), query, None)
    }

    /// POST `.../collections`.
    pub fn create_collection(
        &self,
        tenant: &str,
        database: &str,
        payload: &CreateCollectionPayload,
    ) -> (r: Result<RequestSpec, KhromaError>)
        ensures
            create_collection_encodable(*payload) ==> self.req_matches(
                r,
                Method::Post,
                collections_path(tenant@, database@),
                Seq::empty(),
                Some(Json::Obj(create_collection_obj(*payload))),
            ),
            !create_collection_encodable(*payload) ==> (r matches Err(e) && e is Decode),
    {
        let body = match encode_create_collection(payload) {
            Ok(b) => b,
            Err(e) => {
                return Err(e);
            },
        };
        let path = make_collections_path(tenant, database);
        self.build_request(Method::Post, path.as_str(), no_query(), Some(body))
    }

    /// GET `.../collections/{collection_id}`.
    pub fn get_collection(&self, tenant: &str, database: &str, collection_id: &str) -> (r: Result<
        RequestSpec,
        KhromaError,
    >)
        ensures
            self.req_matches(
                r,
                Method::Get,
                collection_path(tenant@, database@, collection_id@),
                Seq::empty(),
                None,
            ),
    {
        let path = make_collection_path(tenant, database, collection_id);
        self.build_request(Method::Get, path.as_str(), no_query(), None)
    }

    /// PUT `.../collections/{collection_id}`.
    pub fn update_collection(
        &self,
        tenant: &str,
        database: &str,
        collection_id: &str,
        payload: &UpdateCollectionPayload,
    ) -> (r: Result<RequestSpec, KhromaError>)
        ensures
            update_collection_encodable(*payload) ==> self.req_matches(
                r,
                Method::Put,
                collection_path(tenant@, database@, collection_id@),
                Seq::empty(),
                Some(Json::Obj(update_collection_obj(*payload))),
            ),
            !update_collection_encodable(*payload) ==> (r matches Err(e) && e is Decode),
    {
        let body = match encode_update_collection(payload) {
            Ok(b) => b,
            Err(e) => {
                return Err(e);
            },
        };
        let path = make_collection_path(tenant, database, collection_id);
        self.build_request(Method::Put, path.as_str(), no_query(), Some(body))
    }

    /// DELETE `.../collections/{collection_id}`.
    pub fn delete_collection(&self, tenant: &str, database: &str, collection_id: &str) -> (r:
        Result<RequestSpec, KhromaError>)
        ensures
            self.req_matches(
                r,
                Method::Delete,
                collection_path(tenant@, database@, collection_id@),
                Seq::empty(),
                None,
            ),
    {
        let path = make_collection_path(tenant, database, collection_id);
        self.build_request(Method::Delete, path.as_str(), no_query(), None)
    }

    /// POST `.../collections/{collection_id}/add`.
    pub fn collection_add(
        &self,
        tenant: &str,
        database: &str,
        collection_id: &str,
        payload: &AddCollectionRecordsPayload,
    ) -> (r: Result<RequestSpec, KhromaError>)
        ensures
            add_records_encodable(*payload) ==> self.req_matches(
                r,
                Method::Post,
                collection_op_path(tenant@, database@, collection_id@, "add"@),
                Seq::empty(),
                Some(Json::Obj(add_records_obj(*payload))),
            ),
            !add_records_encodable(*payload) ==> (r matches Err(e) && e is Decode),
    {
        let body = match encode_add_records(payload) {
            Ok(b) => b,
            Err(e) => {
                return Err(e);
            },
        };
        let path = make_collection_op_path(tenant, database, collection_id, "add");
        self.build_request(Method::Post, path.as_str(), no_query(), Some(body))
    }

    /// GET `.../collections/{collection_id}/count`.
    pub fn collection_count(&self, tenant: &str, database: &str, collection_id: &str) -> (r:
        Result<RequestSpec, KhromaError>)
        ensures
            self.req_matches(
                r,
                Method::Get,
                collection_op_path(tenant@, database@, collection_id@, "count"@),
                Seq::empty(),
                None,
            ),
    {
        let path = make_collection_op_path(tenant, database, collection_id, "count");
        self.build_request(Method::Get, path.as_str(), no_query(), None)
    }

    /// POST `.../collections/{collection_id}/delete`.
    pub fn collection_delete(
        &self,
        tenant: &str,
        database: &str,
        collection_id: &str,
        payload: &DeleteCollectionRecordsPayload,
    ) -> (r: Result<RequestSpec, KhromaError>)
        ensures
            self.req_matches(
                r,
                Method::Post,
                collection_op_path(tenant@, database@, collection_id@, "delete"@),
                Seq::empty(),
                Some(Json::Obj(delete_records_obj(*payload))),
            ),
    {
        let body = encode_delete_records(payload);
        let path = make_collection_op_path(tenant, database, collection_id, "delete");
        self.build_request(Method::Post, path.as_str(), no_query(), Some(body))
    }

    /// POST `.../collections/{collection_id}/fork`.
    pub fn fork_collection(
        &self,
        tenant: &str,
        database: &str,
        collection_id: &str,
        payload: &ForkCollectionPayload,
    ) -> (r: Result<RequestSpec, KhromaError>)
        ensures
            self.req_matches(
                r,
                Method::Post,
                collection_op_path(tenant@, database@, collection_id@, "fork"@),
                Seq::empty(),
                Some(Json::Obj(fork_obj(payload.new_name@))),
            ),
            r matches Ok(rs) ==> rs.body matches Some(b) && json_of_text(b@) == Some(
                Json::Obj(fork_obj(payload.new_name@)),
            ),
    {
        let body = encode_fork_collection(payload);
        let path = make_collection_op_path(tenant, database, collection_id, "fork");
        self.build_request(Method::Post, path.as_str(), no_query(), Some(body))
    }

    /// POST `.../collections/{collection_id}/get`.
    pub fn collection_get(
        &self,
        tenant: &str,
        database: &str,
        collection_id: &str,
        payload: &GetRequestPayload,
    ) -> (r: Result<RequestSpec, KhromaError>)
        ensures
            self.req_matches(
                r,
                Method::Post,
                collection_op_path(tenant@, database@, collection_id@, "get"@),
                Seq::empty(),
                Some(Json::Obj(get_request_obj(*payload))),
            ),
    {
        let body = encode_get_request(payload);
        let path = make_collection_op_path(tenant, database, collection_id, "get");
        self.build_request(Method::Post, path.as_str(), no_query(), Some(body))
    }

    /// POST `.../collections/{collection_id}/query`, with `limit` and
    /// `offset` attached only when supplied.
    pub fn collection_query(
        &self,
        tenant: &str,
        database: &str,
        collection_id: &str,
        limit: Option<i32>,
        offset: Option<i32>,
        payload: &QueryRequestPayload,
    ) -> (r: Result<RequestSpec, KhromaError>)
        ensures
            query_request_encodable(*payload) ==> self.req_matches(
                r,
                Method::Post,
                collection_op_path(tenant@, database@, collection_id@, "query"@),
                limit_offset_spec(limit, offset),
                Some(Json::Obj(query_request_obj(*payload))),
            ),
            !query_request_encodable(*payload) ==> (r matches Err(e) && e is Decode),
    {
        let body = match encode_query_request(payload) {
            Ok(b) => b,
            Err(e) => {
                return Err(e);
            },
        };
        let path = make_collection_op_path(tenant, database, collection_id, "query");
        let query = limit_offset_query(limit, offset);
        self.build_request(Method::Post, path.as_str(), query, Some(body))
    }

    /// POST `.../collections/{collection_id}/update`.
    pub fn collection_update(
        &self,
        tenant: &str,
        database: &str,
        collection_id: &str,
        payload: &UpdateCollectionRecordsPayload,
    ) -> (r: Result<RequestSpec, KhromaError>)
        ensures
            update_records_encodable(*payload) ==> self.req_matches(
                r,
                Method::Post,
                collection_op_path(tenant@, database@, collection_id@, "update"@),
                Seq::empty(),
                Some(Json::Obj(update_records_obj(*payload))),
            ),
            !update_records_encodable(*payload) ==> (r matches Err(e) && e is Decode),
    {
        let body = match encode_update_records(payload) {
            Ok(b) => b,
            Err(e) => {
                return Err(e);
            },
        };
        let path = make_collection_op_path(tenant, database, collection_id, "update");
        self.build_request(Method::Post, path.as_str(), no_query(), Some(body))
    }

    /// POST `.../collections/{collection_id}/upsert`.
    pub fn collection_upsert(
        &self,
        tenant: &str,
        database: &str,
        collection_id: &str,
        payload: &UpsertCollectionRecordsPayload,
    ) -> (r: Result<RequestSpec, KhromaError>)
        ensures
            upsert_records_encodable(*payload) ==> self.req_matches(
                r,
                Method::Post,
                collection_op_path(tenant@, database@, collection_id@, "upsert"@),
                Seq::empty(),
                Some(Json::Obj(upsert_records_obj(*payload))),
            ),
            !upsert_records_encodable(*payload) ==> (r matches Err(e) && e is Decode),
    {
        let body = match encode_upsert_records(payload) {
            Ok(b) => b,
            Err(e) => {
                return Err(e);
            },
        };
        let path = make_collection_op_path(tenant, database, collection_id, "upsert");
        self.build_request(Method::Post, path.as_str(), no_query(), Some(body))
    }

    /// GET `.../collections_count`.
    pub fn count_collections(&self, tenant: &str, database: &str) -> (r: Result<
        RequestSpec,
        KhromaError,
    >)
        ensures
            self.req_matches(
                r,
                Method::Get,
                collections_count_path(tenant@, database@),
                Seq::empty(),
                None,
            ),
    {
        let path = make_collections_count_path(tenant, database);
        self.build_request(Method::Get, path.as_str(), no_query(), None)
    }
}

// --- response parsers -----------------------------------------------------------

/// Parses a response whose success body is a structure without fields.
fn parse_empty_response(status: u16, body: &str) -> (r: Result<(), KhromaError>)
    ensures
        !is_success(status) ==> (r matches Err(KhromaError::Api { status: st, message: m }) && st
            == status && m@ == api_message(status, body@)),
        is_success(status) ==> (match json_of_text(body@) {
            Some(j) => if empty_struct_decodable(j) {
                r is Ok
            } else {
                (r matches Err(e) && e is Decode)
            },
            None => (r matches Err(e) && e is Decode),
        }),
{
    match handle_response(status, body) {
        Ok(v) => {
            if check_empty_struct(&v) {
                Ok(())
            } else {
                Err(KhromaError::Decode(String::from_str("unexpected response shape")))
            }
        },
        Err(e) => Err(e),
    }
}

pub fn parse_create_tenant_response(status: u16, body: &str) -> (r: Result<
    CreateTenantResponse,
    KhromaError,
>)
    ensures
        !is_success(status) ==> (r matches Err(KhromaError::Api { status: st, message: m }) && st
            == status && m@ == api_message(status, body@)),
        is_success(status) ==> (match json_of_text(body@) {
            Some(j) => if empty_struct_decodable(j) {
                r is Ok
            } else {
                (r matches Err(e) && e is Decode)
            },
            None => (r matches Err(e) && e is Decode),
        }),
{
    match parse_empty_response(status, body) {
        Ok(_) => Ok(CreateTenantResponse {  }),
        Err(e) => Err(e),
    }
}

pub fn parse_create_database_response(status: u16, body: &str) -> (r: Result<
    CreateDatabaseResponse,
    KhromaError,
>)
    ensures
        !is_success(status) ==> (r matches Err(KhromaError::Api { status: st, message: m }) && st
            == status && m@ == api_message(status, body@)),
        is_success(status) ==> (match json_of_text(body@) {
            Some(j) => if empty_struct_decodable(j) {
                r is Ok
            } else {
                (r matches Err(e) && e is Decode)
            },
            None => (r matches Err(e) && e is Decode),
        }),
{
    match parse_empty_response(status, body) {
        Ok(_) => Ok(CreateDatabaseResponse {  }),
        Err(e) => Err(e),
    }
}

pub fn parse_delete_database_response(status: u16, body: &str) -> (r: Result<
    DeleteDatabaseResponse,
    KhromaError,
>)
    ensures
        !is_success(status) ==> (r matches Err(KhromaError::Api { status: st, message: m }) && st
            == status && m@ == api_message(status, body@)),
        is_success(status) ==> (match json_of_text(body@) {
            Some(j) => if empty_struct_decodable(j) {
                r is Ok
            } else {
                (r matches Err(e) && e is Decode)
            },
            None => (r matches Err(e) && e is Decode),
        }),
{
    match parse_empty_response(status, body) {
        Ok(_) => Ok(DeleteDatabaseResponse {  }),
        Err(e) => Err(e),
    }
}

pub fn parse_update_collection_response(status: u16, body: &str) -> (r: Result<
    UpdateCollectionResponse,
    KhromaError,
>)
    ensures
        !is_success(status) ==> (r matches Err(KhromaError::Api { status: st, message: m }) && st
            == status && m@ == api_message(status, body@)),
        is_success(status) ==> (match json_of_text(body@) {
            Some(j) => if empty_struct_decodable(j) {
                r is Ok
            } else {
                (r matches Err(e) && e is Decode)
            },
            None => (r matches Err(e) && e is Decode),
        }),
{
    match parse_empty_response(status, body) {
        Ok(_) => Ok(UpdateCollectionResponse {  }),
        Err(e) => Err(e),
    }
}

pub fn parse_add_records_response(status: u16, body: &str) -> (r: Result<
    AddCollectionRecordsResponse,
    KhromaError,
>)
    ensures
        !is_success(status) ==> (r matches Err(KhromaError::Api { status: st, message: m }) && st
            == status && m@ == api_message(status, body@)),
        is_success(status) ==> (match json_of_text(body@) {
            Some(j) => if empty_struct_decodable(j) {
                r is Ok
            } else {
                (r matches Err(e) && e is Decode)
            },
            None => (r matches Err(e) && e is Decode),
        }),
{
    match parse_empty_response(status, body) {
        Ok(_) => Ok(AddCollectionRecordsResponse {  }),
        Err(e) => Err(e),
    }
}

pub fn parse_delete_records_response(status: u16, body: &str) -> (r: Result<
    DeleteCollectionRecordsResponse,
    KhromaError,
>)
    ensures
        !is_success(status) ==> (r matches Err(KhromaError::Api { status: st, message: m }) && st
            == status && m@ == api_message(status, body@)),
        is_success(status) ==> (match json_of_text(body@) {
            Some(j) => if empty_struct_decodable(j) {
                r is Ok
            } else {
                (r matches Err(e) && e is Decode)
            },
            None => (r matches Err(e) && e is Decode),
        }),
{
    match parse_empty_response(status, body) {
        Ok(_) => Ok(DeleteCollectionRecordsResponse {  }),
        Err(e) => Err(e),
    }
}

pub fn parse_update_records_response(status: u16, body: &str) -> (r: Result<
    UpdateCollectionRecordsResponse,
    KhromaError,
>)
    ensures
        !is_success(status) ==> (r matches Err(KhromaError::Api { status: st, message: m }) && st
            == status && m@ == api_message(status, body@)),
        is_success(status) ==> (match json_of_text(body@) {
            Some(j) => if empty_struct_decodable(j) {
                r is Ok
            } else {
                (r matches Err(e) && e is Decode)
            },
            None => (r matches Err(e) && e is Decode),
        }),
{
    match parse_empty_response(status, body) {
        Ok(_) => Ok(UpdateCollectionRecordsResponse {  }),
        Err(e) => Err(e),
    }
}

pub fn parse_upsert_records_response(status: u16, body: &str) -> (r: Result<
    UpsertCollectionRecordsResponse,
    KhromaError,
>)
    ensures
        !is_success(status) ==> (r matches Err(KhromaError::Api { status: st, message: m }) && st
            == status && m@ == api_message(status, body@)),
        is_success(status) ==> (match json_of_text(body@) {
            Some(j) => if empty_struct_decodable(j) {
                r is Ok
            } else {
                (r matches Err(e) && e is Decode)
            },
            None => (r matches Err(e) && e is Decode),
        }),
{
    match parse_empty_response(status, body) {
        Ok(_) => Ok(UpsertCollectionRecordsResponse {  }),
        Err(e) => Err(e),
    }
}

pub fn parse_identity_response(status: u16, body: &str) -> (r: Result<
    GetUserIdentityResponse,
    KhromaError,
>)
    ensures
        !is_success(status) ==> (r matches Err(KhromaError::Api { status: st, message: m }) && st
            == status && m@ == api_message(status, body@)),
        is_success(status) ==> (match json_of_text(body@) {
            Some(j) => if identity_decodable(j) {
                r matches Ok(t) && identity_matches(t, j)
            } else {
                (r matches Err(e) && e is Decode)
            },
            None => (r matches Err(e) && e is Decode),
        }),
{
    match handle_response(status, body) {
        Ok(v) => match decode_user_identity(&v) {
            Ok(t) => Ok(t),
            Err(_) => Err(KhromaError::Decode(String::from_str("unexpected response shape"))),
        },
        Err(e) => Err(e),
    }
}

pub fn parse_heartbeat_response(status: u16, body: &str) -> (r: Result<
    HeartbeatResponse,
    KhromaError,
>)
    ensures
        !is_success(status) ==> (r matches Err(KhromaError::Api { status: st, message: m }) && st
            == status && m@ == api_message(status, body@)),
        is_success(status) ==> (match json_of_text(body@) {
            Some(j) => if heartbeat_decodable(j) {
                r matches Ok(t) && t.nanosecond_heartbeat == crate::codec::req_u64_val(
                    j->Obj_0,
                    "nanosecond heartbeat"@,
                )
            } else {
                (r matches Err(e) && e is Decode)
            },
            None => (r matches Err(e) && e is Decode),
        }),
{
    match handle_response(status, body) {
        Ok(v) => match decode_heartbeat(&v) {
            Ok(t) => Ok(t),
            Err(_) => Err(KhromaError::Decode(String::from_str("unexpected response shape"))),
        },
        Err(e) => Err(e),
    }
}

pub fn parse_checklist_response(status: u16, body: &str) -> (r: Result<
    ChecklistResponse,
    KhromaError,
>)
    ensures
        !is_success(status) ==> (r matches Err(KhromaError::Api { status: st, message: m }) && st
            == status && m@ == api_message(status, body@)),
        is_success(status) ==> (match json_of_text(body@) {
            Some(j) => if checklist_decodable(j) {
                r matches Ok(t) && t.max_batch_size == crate::codec::i32_of_json(
                    j->Obj_0[("max_batch_size"@)],
                ) && j->Obj_0[("supports_base64_encoding"@)] == Json::Bool(
                    t.supports_base64_encoding,
                )
            } else {
                (r matches Err(e) && e is Decode)
            },
            None => (r matches Err(e) && e is Decode),
        }),
{
    match handle_response(status, body) {
        Ok(v) => match decode_checklist(&v) {
            Ok(t) => Ok(t),
            Err(_) => Err(KhromaError::Decode(String::from_str("unexpected response shape"))),
        },
        Err(e) => Err(e),
    }
}

/// Parses the boolean text body of the reset endpoint.
pub fn parse_reset_response(status: u16, body: &str) -> (r: Result<bool, KhromaError>)
    ensures
        !is_success(status) ==> (r matches Err(KhromaError::Api { status: st, message: m }) && st
            == status && m@ == api_message(status, body@)),
        is_success(status) ==> (match bool_of_text(body@) {
            Some(b) => r matches Ok(rb) && rb == b,
            None => (r matches Err(e) && e is Decode),
        }),
{
    match handle_text_response(status, body) {
        Ok(text) => parse_bool_text(text.as_str()),
        Err(e) => Err(e),
    }
}

pub fn parse_get_tenant_response(status: u16, body: &str) -> (r: Result<
    GetTenantResponse,
    KhromaError,
>)
    ensures
        !is_success(status) ==> (r matches Err(KhromaError::Api { status: st, message: m }) && st
            == status && m@ == api_message(status, body@)),
        is_success(status) ==> (match json_of_text(body@) {
            Some(j) => if tenant_decodable(j) {
                r matches Ok(t) && t.name@ == crate::codec::req_str_val(j->Obj_0, "name"@)
            } else {
                (r matches Err(e) && e is Decode)
            },
            None => (r matches Err(e) && e is Decode),
        }),
{
    match handle_response(status, body) {
        Ok(v) => match decode_get_tenant(&v) {
            Ok(t) => Ok(t),
            Err(_) => Err(KhromaError::Decode(String::from_str("unexpected response shape"))),
        },
        Err(e) => Err(e),
    }
}

pub fn parse_database_response(status: u16, body: &str) -> (r: Result<Database, KhromaError>)
    ensures
        !is_success(status) ==> (r matches Err(KhromaError::Api { status: st, message: m }) && st
            == status && m@ == api_message(status, body@)),
        is_success(status) ==> (match json_of_text(body@) {
            Some(j) => if database_decodable(j) {
                r matches Ok(d) && database_matches(d, j)
            } else {
                (r matches Err(e) && e is Decode)
            },
            None => (r matches Err(e) && e is Decode),
        }),
{
    match handle_response(status, body) {
        Ok(v) => match decode_database(&v) {
            Ok(t) => Ok(t),
            Err(_) => Err(KhromaError::Decode(String::from_str("unexpected response shape"))),
        },
        Err(e) => Err(e),
    }
}

pub fn parse_databases_response(status: u16, body: &str) -> (r: Result<Vec<Database>, KhromaError>)
    ensures
        !is_success(status) ==> (r matches Err(KhromaError::Api { status: st, message: m }) && st
            == status && m@ == api_message(status, body@)),
        is_success(status) ==> (match json_of_text(body@) {
            Some(j) => if databases_decodable(j) {
                r matches Ok(xs) && xs@.len() == (j->Arr_0).len() && (forall|i: int|
                    0 <= i < xs@.len() ==> database_matches(#[trigger] xs@[i], (j->Arr_0)[i]))
            } else {
                (r matches Err(e) && e is Decode)
            },
            None => (r matches Err(e) && e is Decode),
        }),
{
    match handle_response(status, body) {
        Ok(v) => match decode_databases(&v) {
            Ok(t) => Ok(t),
            Err(_) => Err(KhromaError::Decode(String::from_str("unexpected response shape"))),
        },
        Err(e) => Err(e),
    }
}

/// Parses a collection record; creating, fetching and forking a
/// collection all share this one decoder.
pub fn parse_collection_response(status: u16, body: &str) -> (r: Result<Collection, KhromaError>)
    ensures
        !is_success(status) ==> (r matches Err(KhromaError::Api { status: st, message: m }) && st
            == status && m@ == api_message(status, body@)),
        is_success(status) ==> (match json_of_text(body@) {
            Some(j) => if collection_decodable(j) {
                r matches Ok(c) && collection_matches(c, j)
            } else {
                (r matches Err(e) && e is Decode)
            },
            None => (r matches Err(e) && e is Decode),
        }),
{
    match handle_response(status, body) {
        Ok(v) => match decode_collection(&v) {
            Ok(t) => Ok(t),
            Err(_) => Err(KhromaError::Decode(String::from_str("unexpected response shape"))),
        },
        Err(e) => Err(e),
    }
}

pub fn parse_collections_response(status: u16, body: &str) -> (r: Result<
    Vec<Collection>,
    KhromaError,
>)
    ensures
        !is_success(status) ==> (r matches Err(KhromaError::Api { status: st, message: m }) && st
            == status && m@ == api_message(status, body@)),
        is_success(status) ==> (match json_of_text(body@) {
            Some(j) => if collections_decodable(j) {
                r matches Ok(xs) && xs@.len() == (j->Arr_0).len() && (forall|i: int|
                    0 <= i < xs@.len() ==> collection_matches(#[trigger] xs@[i], (j->Arr_0)[i]))
            } else {
                (r matches Err(e) && e is Decode)
            },
            None => (r matches Err(e) && e is Decode),
        }),
{
    match handle_response(status, body) {
        Ok(v) => match decode_collections(&v) {
            Ok(t) => Ok(t),
            Err(_) => Err(KhromaError::Decode(String::from_str("unexpected response shape"))),
        },
        Err(e) => Err(e),
    }
}

/// Parses a count; record counts and collection counts share it.
pub fn parse_count_response(status: u16, body: &str) -> (r: Result<u32, KhromaError>)
    ensures
        !is_success(status) ==> (r matches Err(KhromaError::Api { status: st, message: m }) && st
            == status && m@ == api_message(status, body@)),
        is_success(status) ==> (match json_of_text(body@) {
            Some(j) => if count_decodable(j) {
                r matches Ok(n) && j == Json::UInt(n as u64)
            } else {
                (r matches Err(e) && e is Decode)
            },
            None => (r matches Err(e) && e is Decode),
        }),
{
    match handle_response(status, body) {
        Ok(v) => match decode_count(&v) {
            Ok(t) => Ok(t),
            Err(_) => Err(KhromaError::Decode(String::from_str("unexpected response shape"))),
        },
        Err(e) => Err(e),
    }
}

pub fn parse_get_records_response(status: u16, body: &str) -> (r: Result<GetResponse, KhromaError>)
    ensures
        !is_success(status) ==> (r matches Err(KhromaError::Api { status: st, message: m }) && st
            == status && m@ == api_message(status, body@)),
        is_success(status) ==> (match json_of_text(body@) {
            Some(j) => if get_response_decodable(j) {
                r matches Ok(t) && get_response_matches(t, j)
            } else {
                (r matches Err(e) && e is Decode)
            },
            None => (r matches Err(e) && e is Decode),
        }),
{
    match handle_response(status, body) {
        Ok(v) => match decode_get_response(&v) {
            Ok(t) => Ok(t),
            Err(_) => Err(KhromaError::Decode(String::from_str("unexpected response shape"))),
        },
        Err(e) => Err(e),
    }
}

pub fn parse_query_response(status: u16, body: &str) -> (r: Result<QueryResponse, KhromaError>)
    ensures
        !is_success(status) ==> (r matches Err(KhromaError::Api { status: st, message: m }) && st
            == status && m@ == api_message(status, body@)),
        is_success(status) ==> (match json_of_text(body@) {
            Some(j) => if query_response_decodable(j) {
                r matches Ok(t) && query_response_matches(t, j)
            } else {
                (r matches Err(e) && e is Decode)
            },
            None => (r matches Err(e) && e is Decode),
        }),
{
    match handle_response(status, body) {
        Ok(v) => match decode_query_response(&v) {
            Ok(t) => Ok(t),
            Err(_) => Err(KhromaError::Decode(String::from_str("unexpected response shape"))),
        },
        Err(e) => Err(e),
    }
}

} // verus!
