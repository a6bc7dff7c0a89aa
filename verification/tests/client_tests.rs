//! Request construction: URL joining, path templates, query-parameter
//! omission, the token header value, and body serialization.

use khroma::client::{ChromaClient, Method};
use khroma::high_level::Khroma;
use khroma::models::{
    CreateCollectionPayload, CreateTenantPayload, GetRequestPayload, Include,
    QueryRequestPayload, RawWhereFields,
};
use khroma::KhromaError;

fn client() -> ChromaClient {
    ChromaClient::new("http://localhost:8000", None).unwrap()
}

#[test]
fn new_rejects_an_invalid_base_url() {
    match ChromaClient::new("not a url", None) {
        Err(KhromaError::UrlConstruction(_)) => {}
        other => panic!("expected a UrlConstruction error, got {:?}", other.map(|c| c.base_url)),
    }
}

#[test]
fn new_normalizes_the_base_url() {
    let c = ChromaClient::new("http://localhost:8000", None).unwrap();
    assert_eq!(c.base_url, "http://localhost:8000/");
}

#[test]
fn list_collections_without_limit_and_offset_has_no_query_parameters() {
    let rs = client().list_collections("t1", "db1", None, None).unwrap();
    assert!(rs.query.is_empty());
    assert_eq!(rs.url, "http://localhost:8000/api/v2/tenants/t1/databases/db1/collections");
    assert_eq!(rs.method, Method::Get);
}

#[test]
fn list_collections_with_limit_and_offset_carries_both() {
    let rs = client().list_collections("t1", "db1", Some(10), Some(5)).unwrap();
    assert_eq!(
        rs.query,
        vec![
            ("limit".to_string(), "10".to_string()),
            ("offset".to_string(), "5".to_string()),
        ]
    );
}

#[test]
fn list_databases_with_only_offset_carries_only_offset() {
    let rs = client().list_databases("t1", None, Some(0)).unwrap();
    assert_eq!(rs.query, vec![("offset".to_string(), "0".to_string())]);
}

#[test]
fn negative_limit_renders_with_a_minus_sign() {
    let rs = client().list_databases("t1", Some(-2147483648), None).unwrap();
    assert_eq!(rs.query, vec![("limit".to_string(), "-2147483648".to_string())]);
}

#[test]
fn token_is_carried_when_configured_and_absent_otherwise() {
    let with = ChromaClient::new("http://localhost:8000", Some("SECRET-REDACTED".to_string()))
        .unwrap();
    let rs = with.heartbeat().unwrap();
    assert_eq!(rs.token.as_deref(), Some("SECRET-REDACTED"));
    let without = client().heartbeat().unwrap();
    assert!(without.token.is_none());
}

#[test]
fn create_tenant_body_is_the_name_object() {
    let rs = client()
        .create_tenant(&CreateTenantPayload { name: "acme".to_string() })
        .unwrap();
    assert_eq!(rs.method, Method::Post);
    assert_eq!(rs.url, "http://localhost:8000/api/v2/tenants");
    let doc: serde_json::Value = serde_json::from_str(rs.body.as_deref().unwrap()).unwrap();
    assert_eq!(doc, serde_json::from_str::<serde_json::Value>("{\"name\":\"acme\"}").unwrap());
}

#[test]
fn collection_paths_substitute_segments_in_order() {
    let rs = client().get_collection("ten", "db", "1c8f...id").unwrap();
    assert_eq!(
        rs.url,
        "http://localhost:8000/api/v2/tenants/ten/databases/db/collections/1c8f...id"
    );
    let rs = client().count_collections("ten", "db").unwrap();
    assert_eq!(
        rs.url,
        "http://localhost:8000/api/v2/tenants/ten/databases/db/collections_count"
    );
}

#[test]
fn record_operation_paths_end_with_the_operation() {
    let payload = khroma::models::DeleteCollectionRecordsPayload {
        where_fields: RawWhereFields { where_filter: None, where_document: None },
        ids: Some(vec!["r1".to_string()]),
    };
    let rs = client().collection_delete("t", "d", "c", &payload).unwrap();
    assert_eq!(
        rs.url,
        "http://localhost:8000/api/v2/tenants/t/databases/d/collections/c/delete"
    );
    let doc: serde_json::Value = serde_json::from_str(rs.body.as_deref().unwrap()).unwrap();
    assert_eq!(doc["ids"][0], "r1");
}

#[test]
fn get_request_body_carries_filters_and_selectors() {
    let payload = GetRequestPayload {
        where_fields: RawWhereFields {
            where_filter: Some(serde_json::from_str("{\"color\":\"red\"}").unwrap()),
            where_document: None,
        },
        ids: None,
        include_list: Some(vec![Include::Documents, Include::Metadatas]),
        limit: Some(3),
        offset: None,
    };
    let rs = client().collection_get("t", "d", "c", &payload).unwrap();
    let doc: serde_json::Value = serde_json::from_str(rs.body.as_deref().unwrap()).unwrap();
    assert_eq!(doc["where"]["color"], "red");
    assert!(doc.get("where_document").is_none());
    assert_eq!(doc["include"][0], "documents");
    assert_eq!(doc["include"][1], "metadatas");
    assert_eq!(doc["limit"], 3);
    assert!(doc.get("offset").is_none());
}

#[test]
fn query_body_embeddings_are_numbers() {
    let payload = QueryRequestPayload {
        where_fields: RawWhereFields { where_filter: None, where_document: None },
        query_embeddings: vec![vec!["0.25".to_string(), "-1.5".to_string()]],
        ids: None,
        include_list: None,
        n_results: Some(2),
    };
    let rs = client().collection_query("t", "d", "c", None, None, &payload).unwrap();
    let doc: serde_json::Value = serde_json::from_str(rs.body.as_deref().unwrap()).unwrap();
    assert_eq!(doc["query_embeddings"][0][0], 0.25);
    assert_eq!(doc["query_embeddings"][0][1], -1.5);
    assert_eq!(doc["n_results"], 2);
}

#[test]
fn query_with_bad_embedding_numeral_is_a_decode_error() {
    let payload = QueryRequestPayload {
        where_fields: RawWhereFields { where_filter: None, where_document: None },
        query_embeddings: vec![vec!["zero point five".to_string()]],
        ids: None,
        include_list: None,
        n_results: None,
    };
    assert!(matches!(
        client().collection_query("t", "d", "c", None, None, &payload),
        Err(KhromaError::Decode(_))
    ));
}

#[test]
fn get_or_create_forces_the_flag_and_is_repeatable() {
    let khroma = Khroma::new("http://localhost:8000", None).unwrap();
    let db = khroma.tenant("t1").database("db1");
    let payload = || CreateCollectionPayload {
        name: "things".to_string(),
        metadata: None,
        configuration: None,
        get_or_create: Some(false),
    };
    let first = db.get_or_create_collection(payload()).unwrap();
    let second = db.get_or_create_collection(payload()).unwrap();
    let doc1: serde_json::Value = serde_json::from_str(first.body.as_deref().unwrap()).unwrap();
    let doc2: serde_json::Value = serde_json::from_str(second.body.as_deref().unwrap()).unwrap();
    assert_eq!(doc1["get_or_create"], true);
    assert_eq!(doc1, doc2);
    assert_eq!(first.url, second.url);
}

#[test]
fn high_level_handles_delegate_with_their_identity() {
    let khroma = Khroma::new("http://localhost:8000", Some("SECRET-REDACTED".to_string())).unwrap();
    let tenant = khroma.tenant("acme");
    let db = tenant.database("prod");
    let rs = db.list_collections(None, None).unwrap();
    assert_eq!(
        rs.url,
        "http://localhost:8000/api/v2/tenants/acme/databases/prod/collections"
    );
    assert_eq!(rs.token.as_deref(), Some("SECRET-REDACTED"));
    let rs = tenant.create_database("staging").unwrap();
    let doc: serde_json::Value = serde_json::from_str(rs.body.as_deref().unwrap()).unwrap();
    assert_eq!(doc["name"], "staging");
}

#[test]
fn collection_handle_uses_its_id_in_paths() {
    let khroma = Khroma::new("http://localhost:8000", None).unwrap();
    let db = khroma.tenant("t").database("d");
    let body = "{\"id\":\"01234567-89ab-cdef-0123-456789abcdef\",\"name\":\"things\",\
                 \"configuration_json\":{},\"tenant\":\"t\",\"database\":\"d\",\
                 \"log_position\":0,\"version\":1}";
    let coll = db.collection_result(200, body).unwrap();
    let rs = coll.count().unwrap();
    assert_eq!(
        rs.url,
        "http://localhost:8000/api/v2/tenants/t/databases/d/collections/01234567-89ab-cdef-0123-456789abcdef/count"
    );
}
