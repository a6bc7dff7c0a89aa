//! Ergonomic handles around the low-level client. A handle carries its
//! identity path segments and a copy of the client's address and token;
//! every method is a stateless translation to one low-level request,
//! and every `*_result` method reshapes the corresponding response.

use vstd::prelude::*;
use crate::client::{
    collection_op_path, collection_path, collections_count_path, collections_path, database_path,
    databases_path, limit_offset_spec, tenant_path, tenants_path, url_joined, url_norm,
    ChromaClient, Method, RequestSpec,
};
use crate::dispatch::{api_message, bool_of_text, is_success};
use crate::error::KhromaError;
use crate::json::{json_of_text, json_of_value, Json};
use crate::models;
use crate::payloads::{
    add_records_encodable, add_records_obj, create_collection_encodable, create_collection_obj,
    delete_records_obj, get_request_obj, name_obj, query_request_encodable, query_request_obj,
    update_collection_encodable, update_collection_obj, update_records_encodable,
    update_records_obj, upsert_records_encodable, upsert_records_obj,
};
use crate::responses::{
    collection_decodable, collection_matches, collections_decodable, database_decodable,
    database_matches, databases_decodable,
};

verus! {

/// A handle to one collection: its durable id, its name, and the
/// identity path of the owning database.
pub struct Collection {
    pub id: String,
    pub name: String,
    pub tenant_name: String,
    pub database_name: String,
    pub client: ChromaClient,
}

impl ChromaClient {
    /// A copy of this client handle; the address and token are equal.
    pub fn duplicate(&self) -> (c: ChromaClient)
        ensures
            c.base_url@ == self.base_url@,
            c.token.deep_view() == self.token.deep_view(),
    {
        let token = match &self.token {
            Some(t) => Some(t.clone()),
            None => None,
        };
        ChromaClient { base_url: self.base_url.clone(), token }
    }
}

impl Collection {
    /// Wraps a collection record together with a client handle.
    pub fn from(value: models::Collection, client: ChromaClient) -> (c: Collection)
        ensures
            c.id@ == value.id@,
            c.name@ == value.name@,
            c.tenant_name@ == value.tenant@,
            c.database_name@ == value.database@,
            c.client == client,
    {
        Collection {
            id: value.id,
            name: value.name,
            tenant_name: value.tenant,
            database_name: value.database,
            client,
        }
    }

    /// POST `.../add` for this collection.
    pub fn add(&self, payload: &models::AddCollectionRecordsPayload) -> (r: Result<
        RequestSpec,
        KhromaError,
    >)
        ensures
            add_records_encodable(*payload) ==> self.client.req_matches(
                r,
                Method::Post,
                collection_op_path(self.tenant_name@, self.database_name@, self.id@, "add"@),
                Seq::empty(),
                Some(Json::Obj(add_records_obj(*payload))),
            ),
            !add_records_encodable(*payload) ==> (r matches Err(e) && e is Decode),
    {
        self.client.collection_add(
            self.tenant_name.as_str(),
            self.database_name.as_str(),
            self.id.as_str(),
            payload,
        )
    }

    /// POST `.../upsert` for this collection.
    pub fn upsert(&self, payload: &models::UpsertCollectionRecordsPayload) -> (r: Result<
        RequestSpec,
        KhromaError,
    >)
        ensures
            upsert_records_encodable(*payload) ==> self.client.req_matches(
                r,
                Method::Post,
                collection_op_path(self.tenant_name@, self.database_name@, self.id@, "upsert"@),
                Seq::empty(),
                Some(Json::Obj(upsert_records_obj(*payload))),
            ),
            !upsert_records_encodable(*payload) ==> (r matches Err(e) && e is Decode),
    {
        self.client.collection_upsert(
            self.tenant_name.as_str(),
            self.database_name.as_str(),
            self.id.as_str(),
            payload,
        )
    }

    /// POST `.../query` for this collection.
    pub fn query(
        &self,
        payload: &models::QueryRequestPayload,
        limit: Option<i32>,
        offset: Option<i32>,
    ) -> (r: Result<RequestSpec, KhromaError>)
        ensures
            query_request_encodable(*payload) ==> self.client.req_matches(
                r,
                Method::Post,
                collection_op_path(self.tenant_name@, self.database_name@, self.id@, "query"@),
                limit_offset_spec(limit, offset),
                Some(Json::Obj(query_request_obj(*payload))),
            ),
            !query_request_encodable(*payload) ==> (r matches Err(e) && e is Decode),
    {
        self.client.collection_query(
            self.tenant_name.as_str(),
            self.database_name.as_str(),
            self.id.as_str(),
            limit,
            offset,
            payload,
        )
    }

    /// POST `.../get` for this collection.
    pub fn get(&self, payload: &models::GetRequestPayload) -> (r: Result<RequestSpec, KhromaError>)
        ensures
            self.client.req_matches(
                r,
                Method::Post,
                collection_op_path(self.tenant_name@, self.database_name@, self.id@, "get"@),
                Seq::empty(),
                Some(Json::Obj(get_request_obj(*payload))),
            ),
    {
        self.client.collection_get(
            self.tenant_name.as_str(),
            self.database_name.as_str(),
            self.id.as_str(),
            payload,
        )
    }

    /// POST `.../delete` for this collection.
    pub fn delete(&self, payload: &models::DeleteCollectionRecordsPayload) -> (r: Result<
        RequestSpec,
        KhromaError,
    >)
        ensures
            self.client.req_matches(
                r,
                Method::Post,
                collection_op_path(self.tenant_name@, self.database_name@, self.id@, "delete"@),
                Seq::empty(),
                Some(Json::Obj(delete_records_obj(*payload))),
            ),
    {
        self.client.collection_delete(
            self.tenant_name.as_str(),
            self.database_name.as_str(),
            self.id.as_str(),
            payload,
        )
    }

    /// POST `.../update` for this collection.
    pub fn update_records(&self, payload: &models::UpdateCollectionRecordsPayload) -> (r: Result<
        RequestSpec,
        KhromaError,
    >)
        ensures
            update_records_encodable(*payload) ==> self.client.req_matches(
                r,
                Method::Post,
                collection_op_path(self.tenant_name@, self.database_name@, self.id@, "update"@),
                Seq::empty(),
                Some(Json::Obj(update_records_obj(*payload))),
            ),
            !update_records_encodable(*payload) ==> (r matches Err(e) && e is Decode),
    {
        self.client.collection_update(
            self.tenant_name.as_str(),
            self.database_name.as_str(),
            self.id.as_str(),
            payload,
        )
    }

    /// PUT `.../collections/{id}` for this collection.
    pub fn update(&self, payload: &models::UpdateCollectionPayload) -> (r: Result<
        RequestSpec,
        KhromaError,
    >)
        ensures
            update_collection_encodable(*payload) ==> self.client.req_matches(
                r,
                Method::Put,
                collection_path(self.tenant_name@, self.database_name@, self.id@),
                Seq::empty(),
                Some(Json::Obj(update_collection_obj(*payload))),
            ),
            !update_collection_encodable(*payload) ==> (r matches Err(e) && e is Decode),
    {
        self.client.update_collection(
            self.tenant_name.as_str(),
            self.database_name.as_str(),
            self.id.as_str(),
            payload,
        )
    }

    /// GET `.../count` for this collection.
    pub fn count(&self) -> (r: Result<RequestSpec, KhromaError>)
        ensures
            self.client.req_matches(
                r,
                Method::Get,
                collection_op_path(self.tenant_name@, self.database_name@, self.id@, "count"@),
                Seq::empty(),
                None,
            ),
    {
        self.client.collection_count(
            self.tenant_name.as_str(),
            self.database_name.as_str(),
            self.id.as_str(),
        )
    }
}

/// A handle to one database within a tenant.
pub struct Database {
    pub name: String,
    pub tenant_name: String,
    pub client: ChromaClient,
}

impl Database {
    /// Wraps a database record together with a client handle.
    pub fn from(value: models::Database, client: ChromaClient) -> (d: Database)
        ensures
            d.name@ == value.name@,
            d.tenant_name@ == value.tenant@,
            d.client == client,
    {
        Database { name: value.name, tenant_name: value.tenant, client }
    }

    /// POST `.../collections` for this database.
    pub fn create_collection(&self, payload: &models::CreateCollectionPayload) -> (r: Result<
        RequestSpec,
        KhromaError,
    >)
        ensures
            create_collection_encodable(*payload) ==> self.client.req_matches(
                r,
                Method::Post,
                collections_path(self.tenant_name@, self.name@),
                Seq::empty(),
                Some(Json::Obj(create_collection_obj(*payload))),
            ),
            !create_collection_encodable(*payload) ==> (r matches Err(e) && e is Decode),
    {
        self.client.create_collection(self.tenant_name.as_str(), self.name.as_str(), payload)
    }

    /// Wraps the record a collection create, fetch or fork returned.
    pub fn collection_result(&self, status: u16, body: &str) -> (r: Result<
        Collection,
        KhromaError,
    >)
        ensures
            !is_success(status) ==> (r matches Err(KhromaError::Api { status: st, message: m })
                && st == status && m@ == api_message(status, body@)),
            is_success(status) ==> (match json_of_text(body@) {
                Some(j) => if collection_decodable(j) {
                    r matches Ok(c) && c.id@ == crate::codec::req_uuid_val(j->Obj_0, "id"@)
                        && c.name@
                        == crate::codec::req_str_val(j->Obj_0, "name"@) && c.tenant_name@
                        == crate::codec::req_str_val(j->Obj_0, "tenant"@) && c.database_name@
                        == crate::codec::req_str_val(j->Obj_0, "database"@) && c.client.base_url@
                        == self.client.base_url@ && c.client.token.deep_view()
                        == self.client.token.deep_view()
                } else {
                    (r matches Err(e) && e is Decode)
                },
                None => (r matches Err(e) && e is Decode),
            }),
    {
        match crate::client::parse_collection_response(status, body) {
            Ok(model) => Ok(Collection::from(model, self.client.duplicate())),
            Err(e) => Err(e),
        }
    }

    /// GET `.../collections/{collection_id}` for this database.
    pub fn get_collection(&self, collection_id: &str) -> (r: Result<RequestSpec, KhromaError>)
        ensures
            self.client.req_matches(
                r,
                Method::Get,
                collection_path(self.tenant_name@, self.name@, collection_id@),
                Seq::empty(),
                None,
            ),
    {
        self.client.get_collection(self.tenant_name.as_str(), self.name.as_str(), collection_id)
    }

    /// The one behavioral composition: forces the creation flag so that
    /// creating an existing name returns the existing collection.
    pub fn get_or_create_collection(&self, payload: models::CreateCollectionPayload) -> (r: Result<
        RequestSpec,
        KhromaError,
    >)
        ensures
            create_collection_encodable(force_get_or_create(payload)) ==> self.client.req_matches(
                r,
                Method::Post,
                collections_path(self.tenant_name@, self.name@),
                Seq::empty(),
                Some(Json::Obj(create_collection_obj(force_get_or_create(payload)))),
            ),
            !create_collection_encodable(force_get_or_create(payload)) ==> (r matches Err(e)
                && e is Decode),
    {
        let create_payload = models::CreateCollectionPayload {
            name: payload.name,
            metadata: payload.metadata,
            configuration: payload.configuration,
            get_or_create: Some(true),
        };
        self.create_collection(&create_payload)
    }

    /// GET `.../collections` for this database.
    pub fn list_collections(&self, limit: Option<i32>, offset: Option<i32>) -> (r: Result<
        RequestSpec,
        KhromaError,
    >)
        ensures
            self.client.req_matches(
                r,
                Method::Get,
                collections_path(self.tenant_name@, self.name@),
                limit_offset_spec(limit, offset),
                None,
            ),
    {
        self.client.list_collections(self.tenant_name.as_str(), self.name.as_str(), limit, offset)
    }

    /// Wraps each record of a collection list.
    pub fn list_collections_result(&self, status: u16, body: &str) -> (r: Result<
        Vec<Collection>,
        KhromaError,
    >)
        ensures
            !is_success(status) ==> (r matches Err(KhromaError::Api { status: st, message: m })
                && st == status && m@ == api_message(status, body@)),
            is_success(status) ==> (match json_of_text(body@) {
                Some(j) => if collections_decodable(j) {
                    r matches Ok(xs) && xs@.len() == (j->Arr_0).len() && (forall|i: int|
                        0 <= i < xs@.len() ==> (#[trigger] xs@[i]).id@ == crate::codec::req_uuid_val(
                            (j->Arr_0)[i]->Obj_0,
                            "id"@,
                        ) && xs@[i].name@ == crate::codec::req_str_val(
                            (j->Arr_0)[i]->Obj_0,
                            "name"@,
                        ) && xs@[i].tenant_name@ == crate::codec::req_str_val(
                            (j->Arr_0)[i]->Obj_0,
                            "tenant"@,
                        ) && xs@[i].database_name@ == crate::codec::req_str_val(
                            (j->Arr_0)[i]->Obj_0,
                            "database"@,
                        ) && xs@[i].client.base_url@ == self.client.base_url@
                            && xs@[i].client.token.deep_view() == self.client.token.deep_view())
                } else {
                    (r matches Err(e) && e is Decode)
                },
                None => (r matches Err(e) && e is Decode),
            }),
    {
        match crate::client::parse_collections_response(status, body) {
            Ok(records) => {
                let mut out: Vec<Collection> = Vec::new();
                let mut i: usize = 0;
                let ghost j = json_of_text(body@)->Some_0;
                let mut records = records;
                proof {
                    assert(records@.len() == (j->Arr_0).len());
                }
                let n = records.len();
                while i < n
                    invariant
                        i <= n,
                        n == records@.len() + i,
                        out@.len() == i as int,
                        records@.len() + i == (j->Arr_0).len(),
                        forall|k: int|
                            0 <= k < records@.len() ==> collection_matches(
                                #[trigger] records@[k],
                                (j->Arr_0)[k + i],
                            ),
                        forall|k: int|
                            0 <= k < i ==> (#[trigger] out@[k]).id@ == crate::codec::req_uuid_val(
                                (j->Arr_0)[k]->Obj_0,
                                "id"@,
                            ) && out@[k].name@ == crate::codec::req_str_val(
                                (j->Arr_0)[k]->Obj_0,
                                "name"@,
                            ) && out@[k].tenant_name@ == crate::codec::req_str_val(
                                (j->Arr_0)[k]->Obj_0,
                                "tenant"@,
                            ) && out@[k].database_name@ == crate::codec::req_str_val(
                                (j->Arr_0)[k]->Obj_0,
                                "database"@,
                            ) && out@[k].client.base_url@ == self.client.base_url@
                                && out@[k].client.token.deep_view()
                                == self.client.token.deep_view(),
                    decreases n - i,
                {
                    let model = records.remove(0);
                    out.push(Collection::from(model, self.client.duplicate()));
                    i += 1;
                }
                Ok(out)
            },
            Err(e) => Err(e),
        }
    }

    /// DELETE `.../collections/{collection_id}` for this database.
    pub fn delete_collection(&self, collection_id: &str) -> (r: Result<RequestSpec, KhromaError>)
        ensures
            self.client.req_matches(
                r,
                Method::Delete,
                collection_path(self.tenant_name@, self.name@, collection_id@),
                Seq::empty(),
                None,
            ),
    {
        self.client.delete_collection(self.tenant_name.as_str(), self.name.as_str(), collection_id)
    }

    /// GET `.../collections_count` for this database.
    pub fn count_collections(&self) -> (r: Result<RequestSpec, KhromaError>)
        ensures
            self.client.req_matches(
                r,
                Method::Get,
                collections_count_path(self.tenant_name@, self.name@),
                Seq::empty(),
                None,
            ),
    {
        self.client.count_collections(self.tenant_name.as_str(), self.name.as_str())
    }
}

/// The payload a get-or-create call actually sends: the caller's, with
/// the creation flag forced on.
pub open spec fn force_get_or_create(p: models::CreateCollectionPayload)
    -> models::CreateCollectionPayload {
    models::CreateCollectionPayload {
        name: p.name,
        metadata: p.metadata,
        configuration: p.configuration,
        get_or_create: Some(true),
    }
}

/// A get-or-create request always carries `get_or_create == true`, so a
/// create against an existing name asks the server for the existing
/// collection instead of a collision failure; and two such requests
/// whose payloads agree on name, metadata document and configuration
/// are the same request object.
pub proof fn lemma_get_or_create_requests_agree(
    p1: models::CreateCollectionPayload,
    p2: models::CreateCollectionPayload,
)
    requires
        p1.name@ == p2.name@,
        p1.metadata is None && p2.metadata is None,
        p1.configuration == p2.configuration,
    ensures
        force_get_or_create(p1).get_or_create == Some(true),
        force_get_or_create(p2).get_or_create == Some(true),
        create_collection_obj(force_get_or_create(p1)) == create_collection_obj(
            force_get_or_create(p2),
        ),
        create_collection_obj(force_get_or_create(p1))[("get_or_create"@)] == Json::Bool(true),
{
    let o1 = create_collection_obj(force_get_or_create(p1));
    let o2 = create_collection_obj(force_get_or_create(p2));
    assert(o1 =~= o2);
}

/// A handle to one tenant.
pub struct Tenant {
    pub name: String,
    pub client: ChromaClient,
}

impl Tenant {
    /// A handle for a database of this tenant, with identity only.
    pub fn database(&self, name: &str) -> (d: Database)
        ensures
            d.name@ == name@,
            d.tenant_name@ == self.name@,
            d.client.base_url@ == self.client.base_url@,
            d.client.token.deep_view() == self.client.token.deep_view(),
    {
        Database {
            name: name.to_owned(),
            tenant_name: self.name.clone(),
            client: self.client.duplicate(),
        }
    }

    /// GET `/api/v2/tenants/{tenant}/databases/{name}`.
    pub fn get_database(&self, name: &str) -> (r: Result<RequestSpec, KhromaError>)
        ensures
            self.client.req_matches(
                r,
                Method::Get,
                database_path(self.name@, name@),
                Seq::empty(),
                None,
            ),
    {
        self.client.get_database(self.name.as_str(), name)
    }

    /// Wraps the record a database fetch returned.
    pub fn get_database_result(&self, status: u16, body: &str) -> (r: Result<
        Database,
        KhromaError,
    >)
        ensures
            !is_success(status) ==> (r matches Err(KhromaError::Api { status: st, message: m })
                && st == status && m@ == api_message(status, body@)),
            is_success(status) ==> (match json_of_text(body@) {
                Some(j) => if database_decodable(j) {
                    r matches Ok(d) && d.name@ == crate::codec::req_str_val(j->Obj_0, "name"@)
                        && d.tenant_name@ == crate::codec::req_str_val(j->Obj_0, "tenant"@)
                        && d.client.base_url@ == self.client.base_url@
                        && d.client.token.deep_view() == self.client.token.deep_view()
                } else {
                    (r matches Err(e) && e is Decode)
                },
                None => (r matches Err(e) && e is Decode),
            }),
    {
        match crate::client::parse_database_response(status, body) {
            Ok(model) => Ok(Database::from(model, self.client.duplicate())),
            Err(e) => Err(e),
        }
    }

    /// POST `/api/v2/tenants/{tenant}/databases`.
    pub fn create_database(&self, name: &str) -> (r: Result<RequestSpec, KhromaError>)
        ensures
            self.client.req_matches(
                r,
                Method::Post,
                databases_path(self.name@),
                Seq::empty(),
                Some(Json::Obj(name_obj(name@))),
            ),
            r matches Ok(rs) ==> rs.body matches Some(b) && json_of_text(b@) == Some(
                Json::Obj(name_obj(name@)),
            ),
    {
        let payload = models::CreateDatabasePayload { name: name.to_owned() };
        self.client.create_database(self.name.as_str(), &payload)
    }

    /// On a success response, the handle for the database just created.
    pub fn create_database_result(&self, name: &str, status: u16, body: &str) -> (r: Result<
        Database,
        KhromaError,
    >)
        ensures
            !is_success(status) ==> (r matches Err(KhromaError::Api { status: st, message: m })
                && st == status && m@ == api_message(status, body@)),
            is_success(status) ==> (match json_of_text(body@) {
                Some(j) => if crate::codec::empty_struct_decodable(j) {
                    r matches Ok(d) && d.name@ == name@ && d.tenant_name@ == self.name@
                        && d.client.base_url@ == self.client.base_url@
                        && d.client.token.deep_view() == self.client.token.deep_view()
                } else {
                    (r matches Err(e) && e is Decode)
                },
                None => (r matches Err(e) && e is Decode),
            }),
    {
        match crate::client::parse_create_database_response(status, body) {
            Ok(_) => Ok(self.database(name)),
            Err(e) => Err(e),
        }
    }

    /// GET `/api/v2/tenants/{tenant}/databases`.
    pub fn list_databases(&self, limit: Option<i32>, offset: Option<i32>) -> (r: Result<
        RequestSpec,
        KhromaError,
    >)
        ensures
            self.client.req_matches(
                r,
                Method::Get,
                databases_path(self.name@),
                limit_offset_spec(limit, offset),
                None,
            ),
    {
        self.client.list_databases(self.name.as_str(), limit, offset)
    }

    /// Wraps each record of a database list.
    pub fn list_databases_result(&self, status: u16, body: &str) -> (r: Result<
        Vec<Database>,
        KhromaError,
    >)
        ensures
            !is_success(status) ==> (r matches Err(KhromaError::Api { status: st, message: m })
                && st == status && m@ == api_message(status, body@)),
            is_success(status) ==> (match json_of_text(body@) {
                Some(j) => if databases_decodable(j) {
                    r matches Ok(xs) && xs@.len() == (j->Arr_0).len() && (forall|i: int|
                        0 <= i < xs@.len() ==> (#[trigger] xs@[i]).name@
                            == crate::codec::req_str_val((j->Arr_0)[i]->Obj_0, "name"@)
                            && xs@[i].tenant_name@ == crate::codec::req_str_val(
                            (j->Arr_0)[i]->Obj_0,
                            "tenant"@,
                        ) && xs@[i].client.base_url@ == self.client.base_url@
                            && xs@[i].client.token.deep_view() == self.client.token.deep_view())
                } else {
                    (r matches Err(e) && e is Decode)
                },
                None => (r matches Err(e) && e is Decode),
            }),
    {
        match crate::client::parse_databases_response(status, body) {
            Ok(records) => {
                let mut out: Vec<Database> = Vec::new();
                let mut i: usize = 0;
                let ghost j = json_of_text(body@)->Some_0;
                let mut records = records;
                let n = records.len();
                while i < n
                    invariant
                        i <= n,
                        n == records@.len() + i,
                        out@.len() == i as int,
                        records@.len() + i == (j->Arr_0).len(),
                        forall|k: int|
                            0 <= k < records@.len() ==> database_matches(
                                #[trigger] records@[k],
                                (j->Arr_0)[k + i],
                            ),
                        forall|k: int|
                            0 <= k < i ==> (#[trigger] out@[k]).name@ == crate::codec::req_str_val(
                                (j->Arr_0)[k]->Obj_0,
                                "name"@,
                            ) && out@[k].tenant_name@ == crate::codec::req_str_val(
                                (j->Arr_0)[k]->Obj_0,
                                "tenant"@,
                            ) && out@[k].client.base_url@ == self.client.base_url@
                                && out@[k].client.token.deep_view()
                                == self.client.token.deep_view(),
                    decreases n - i,
                {
                    let model = records.remove(0);
                    out.push(Database::from(model, self.client.duplicate()));
                    i += 1;
                }
                Ok(out)
            },
            Err(e) => Err(e),
        }
    }
}

/// The entry point: validates the base address once and hands out
/// tenant handles that share the same client configuration.
pub struct Khroma {
    pub client: ChromaClient,
}

impl Khroma {
    /// Fails exactly when the base address is not a valid URL.
    pub fn new(base_url: &str, token: Option<String>) -> (r: Result<Khroma, KhromaError>)
        ensures
            r is Ok <==> url_norm(base_url@) is Some,
            r matches Ok(k) ==> Some(k.client.base_url@) == url_norm(base_url@)
                && k.client.token.deep_view() == token.deep_view(),
            r matches Err(e) ==> e is UrlConstruction,
    {
        match ChromaClient::new(base_url, token) {
            Ok(client) => Ok(Khroma { client }),
            Err(e) => Err(e),
        }
    }

    /// A handle for a tenant, with identity only.
    pub fn tenant(&self, name: &str) -> (t: Tenant)
        ensures
            t.name@ == name@,
            t.client.base_url@ == self.client.base_url@,
            t.client.token.deep_view() == self.client.token.deep_view(),
    {
        Tenant { name: name.to_owned(), client: self.client.duplicate() }
    }

    /// POST `/api/v2/tenants`.
    pub fn create_tenant(&self, name: &str) -> (r: Result<RequestSpec, KhromaError>)
        ensures
            self.client.req_matches(
                r,
                Method::Post,
                tenants_path(),
                Seq::empty(),
                Some(Json::Obj(name_obj(name@))),
            ),
            r matches Ok(rs) ==> rs.body matches Some(b) && json_of_text(b@) == Some(
                Json::Obj(name_obj(name@)),
            ),
    {
        let payload = models::CreateTenantPayload { name: name.to_owned() };
        self.client.create_tenant(&payload)
    }

    /// On a success response, the handle for the tenant just created.
    pub fn create_tenant_result(&self, name: &str, status: u16, body: &str) -> (r: Result<
        Tenant,
        KhromaError,
    >)
        ensures
            !is_success(status) ==> (r matches Err(KhromaError::Api { status: st, message: m })
                && st == status && m@ == api_message(status, body@)),
            is_success(status) ==> (match json_of_text(body@) {
                Some(j) => if crate::codec::empty_struct_decodable(j) {
                    r matches Ok(t) && t.name@ == name@ && t.client.base_url@
                        == self.client.base_url@ && t.client.token.deep_view()
                        == self.client.token.deep_view()
                } else {
                    (r matches Err(e) && e is Decode)
                },
                None => (r matches Err(e) && e is Decode),
            }),
    {
        match crate::client::parse_create_tenant_response(status, body) {
            Ok(_) => Ok(self.tenant(name)),
            Err(e) => Err(e),
        }
    }

    /// GET `/api/v2/tenants/{name}`.
    pub fn get_tenant(&self, name: &str) -> (r: Result<RequestSpec, KhromaError>)
        ensures
            self.client.req_matches(r, Method::Get, tenant_path(name@), Seq::empty(), None),
    {
        self.client.get_tenant(name)
    }

    /// On a success response naming the tenant, the tenant's handle.
    pub fn get_tenant_result(&self, name: &str, status: u16, body: &str) -> (r: Result<
        Tenant,
        KhromaError,
    >)
        ensures
            !is_success(status) ==> (r matches Err(KhromaError::Api { status: st, message: m })
                && st == status && m@ == api_message(status, body@)),
            is_success(status) ==> (match json_of_text(body@) {
                Some(j) => if crate::responses::tenant_decodable(j) {
                    r matches Ok(t) && t.name@ == name@ && t.client.base_url@
                        == self.client.base_url@ && t.client.token.deep_view()
                        == self.client.token.deep_view()
                } else {
                    (r matches Err(e) && e is Decode)
                },
                None => (r matches Err(e) && e is Decode),
            }),
    {
        match crate::client::parse_get_tenant_response(status, body) {
            Ok(_) => Ok(self.tenant(name)),
            Err(e) => Err(e),
        }
    }

    /// GET `/api/v2/version`.
    pub fn version(&self) -> (r: Result<RequestSpec, KhromaError>)
        ensures
            self.client.req_matches(r, Method::Get, "/api/v2/version"@, Seq::empty(), None),
    {
        self.client.version()
    }

    /// GET `/api/v2/heartbeat`.
    pub fn heartbeat(&self) -> (r: Result<RequestSpec, KhromaError>)
        ensures
            self.client.req_matches(r, Method::Get, "/api/v2/heartbeat"@, Seq::empty(), None),
    {
        self.client.heartbeat()
    }

    /// GET `/api/v2/healthcheck`.
    pub fn healthcheck(&self) -> (r: Result<RequestSpec, KhromaError>)
        ensures
            self.client.req_matches(r, Method::Get, "/api/v2/healthcheck"@, Seq::empty(), None),
    {
        self.client.healthcheck()
    }

    /// POST `/api/v2/reset`.
    pub fn reset(&self) -> (r: Result<RequestSpec, KhromaError>)
        ensures
            self.client.req_matches(r, Method::Post, "/api/v2/reset"@, Seq::empty(), None),
    {
        self.client.reset()
    }
}

} // verus!
