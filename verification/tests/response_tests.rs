//! Typed response decoding: collections, databases, identity, counts,
//! record reads, and the create-then-get agreement.

use khroma::client::{
    parse_collection_response, parse_collections_response, parse_count_response,
    parse_database_response, parse_databases_response, parse_get_records_response,
    parse_heartbeat_response, parse_identity_response, parse_query_response,
};
use khroma::KhromaError;

const COLLECTION_BODY: &str = "{\
\"id\":\"1C8F2E4A-0000-4000-8000-00000000ABCD\",\
\"name\":\"things\",\
\"metadata\":{\"owner\":\"svc\"},\
\"configuration_json\":{\"hnsw\":{\"ef_search\":64,\"space\":\"cosine\"}},\
\"tenant\":\"acme\",\
\"database\":\"prod\",\
\"log_position\":42,\
\"version\":3,\
\"dimension\":384}";

#[test]
fn collection_record_decodes_field_for_field() {
    let c = parse_collection_response(200, COLLECTION_BODY).unwrap();
    // The UUID is normalized to its canonical lowercase hyphenated form.
    assert_eq!(c.id, "1c8f2e4a-0000-4000-8000-00000000abcd");
    assert_eq!(c.name, "things");
    assert_eq!(c.tenant, "acme");
    assert_eq!(c.database, "prod");
    assert_eq!(c.log_position, 42);
    assert_eq!(c.version, 3);
    assert_eq!(c.dimension, Some(384));
    let hnsw = c.configuration_json.hnsw.unwrap();
    assert_eq!(hnsw.ef_search, Some(64));
    assert_eq!(hnsw.space, Some(khroma::models::HnswSpace::Cosine));
    let metadata = c.metadata.unwrap();
    assert_eq!(metadata["owner"], "svc");
}

#[test]
fn create_then_get_with_equal_bodies_agree() {
    // The create response and the get response pass through one
    // decoder, so a server answering both with the same record gives
    // records with identical name, tenant, database and configuration.
    let created = parse_collection_response(200, COLLECTION_BODY).unwrap();
    let fetched = parse_collection_response(200, COLLECTION_BODY).unwrap();
    assert_eq!(created.id, fetched.id);
    assert_eq!(created.name, fetched.name);
    assert_eq!(created.tenant, fetched.tenant);
    assert_eq!(created.database, fetched.database);
    assert_eq!(
        created.configuration_json.hnsw.as_ref().unwrap().ef_search,
        fetched.configuration_json.hnsw.as_ref().unwrap().ef_search
    );
    assert_eq!(
        created.configuration_json.hnsw.as_ref().unwrap().space,
        fetched.configuration_json.hnsw.as_ref().unwrap().space
    );
}

#[test]
fn collection_with_invalid_uuid_is_a_decode_error() {
    let body = COLLECTION_BODY.replace("1C8F2E4A-0000-4000-8000-00000000ABCD", "not-a-uuid");
    assert!(matches!(
        parse_collection_response(200, &body),
        Err(KhromaError::Decode(_))
    ));
}

#[test]
fn collection_without_configuration_is_a_decode_error() {
    let body = "{\"id\":\"01234567-89ab-cdef-0123-456789abcdef\",\"name\":\"x\",\
                \"tenant\":\"t\",\"database\":\"d\",\"log_position\":0,\"version\":1}";
    assert!(matches!(
        parse_collection_response(200, body),
        Err(KhromaError::Decode(_))
    ));
}

#[test]
fn collection_list_decodes_every_record() {
    let body = format!("[{},{}]", COLLECTION_BODY, COLLECTION_BODY);
    let xs = parse_collections_response(200, &body).unwrap();
    assert_eq!(xs.len(), 2);
    assert_eq!(xs[0].name, "things");
    assert_eq!(xs[1].id, "1c8f2e4a-0000-4000-8000-00000000abcd");
}

#[test]
fn database_record_decodes() {
    let body = "{\"id\":\"01234567-89ab-cdef-0123-456789abcdef\",\"name\":\"prod\",\"tenant\":\"acme\"}";
    let d = parse_database_response(200, body).unwrap();
    assert_eq!(d.id, "01234567-89ab-cdef-0123-456789abcdef");
    assert_eq!(d.name, "prod");
    assert_eq!(d.tenant, "acme");
    let list = parse_databases_response(200, &format!("[{}]", body)).unwrap();
    assert_eq!(list.len(), 1);
    assert_eq!(list[0].name, "prod");
}

#[test]
fn identity_response_decodes() {
    let body = "{\"user_id\":\"u1\",\"tenant\":\"acme\",\"databases\":[\"prod\",\"dev\"]}";
    let t = parse_identity_response(200, body).unwrap();
    assert_eq!(t.user_id, "u1");
    assert_eq!(t.tenant, "acme");
    assert_eq!(t.databases, vec!["prod".to_string(), "dev".to_string()]);
}

#[test]
fn heartbeat_uses_the_spaced_wire_key() {
    let t = parse_heartbeat_response(200, "{\"nanosecond heartbeat\":123456789}").unwrap();
    assert_eq!(t.nanosecond_heartbeat, 123456789);
    assert!(matches!(
        parse_heartbeat_response(200, "{\"nanosecond_heartbeat\":1}"),
        Err(KhromaError::Decode(_))
    ));
}

#[test]
fn count_is_a_bare_integer() {
    assert_eq!(parse_count_response(200, "7").unwrap(), 7);
    assert!(matches!(
        parse_count_response(200, "-1"),
        Err(KhromaError::Decode(_))
    ));
    assert!(matches!(
        parse_count_response(200, "4294967296"),
        Err(KhromaError::Decode(_))
    ));
}

#[test]
fn get_records_response_decodes() {
    let body = "{\"ids\":[\"a\",\"b\"],\"include\":[\"documents\",\"embeddings\"],\
                \"documents\":[\"d1\",null],\
                \"embeddings\":[[0.5,1.5],[2,3]],\
                \"metadatas\":[{\"k\":1},null]}";
    let t = parse_get_records_response(200, body).unwrap();
    assert_eq!(t.ids, vec!["a".to_string(), "b".to_string()]);
    assert_eq!(
        t.include_list,
        vec![khroma::models::Include::Documents, khroma::models::Include::Embeddings]
    );
    assert_eq!(
        t.documents.unwrap(),
        vec![Some("d1".to_string()), None]
    );
    let embeddings = t.embeddings.unwrap();
    assert_eq!(embeddings[0], vec!["0.5".to_string(), "1.5".to_string()]);
    assert_eq!(embeddings[1], vec!["2".to_string(), "3".to_string()]);
    let metadatas = t.metadatas.unwrap();
    assert_eq!(metadatas[0].as_ref().unwrap()["k"], 1);
    assert!(metadatas[1].is_none());
}

#[test]
fn get_records_with_unknown_selector_is_a_decode_error() {
    let body = "{\"ids\":[],\"include\":[\"everything\"]}";
    assert!(matches!(
        parse_get_records_response(200, body),
        Err(KhromaError::Decode(_))
    ));
}

#[test]
fn query_response_decodes() {
    let body = "{\"ids\":[[\"a\"],[\"b\",\"c\"]],\"include\":[\"distances\"],\
                \"distances\":[[0.125],[null,2.5]],\
                \"documents\":[[null],[\"doc\",null]]}";
    let t = parse_query_response(200, body).unwrap();
    assert_eq!(t.ids, vec![vec!["a".to_string()], vec!["b".to_string(), "c".to_string()]]);
    let distances = t.distances.unwrap();
    assert_eq!(distances[0], vec![Some("0.125".to_string())]);
    assert_eq!(distances[1], vec![None, Some("2.5".to_string())]);
    let documents = t.documents.unwrap();
    assert_eq!(documents[1], vec![Some("doc".to_string()), None]);
    assert!(t.embeddings.is_none());
    assert!(t.uris.is_none());
    assert!(t.metadatas.is_none());
}

#[test]
fn high_level_result_wraps_identity() {
    let khroma = khroma::high_level::Khroma::new("http://localhost:8000", None).unwrap();
    let tenant = khroma.tenant("acme");
    let db = tenant.database("prod");
    let coll = db.collection_result(200, COLLECTION_BODY).unwrap();
    assert_eq!(coll.id, "1c8f2e4a-0000-4000-8000-00000000abcd");
    assert_eq!(coll.name, "things");
    assert_eq!(coll.tenant_name, "acme");
    assert_eq!(coll.database_name, "prod");
    let created = khroma.create_tenant_result("acme", 200, "{}").unwrap();
    assert_eq!(created.name, "acme");
    let fetched = khroma
        .get_tenant_result("acme", 200, "{\"name\":\"acme\"}")
        .unwrap();
    assert_eq!(fetched.name, "acme");
    let made = tenant.create_database_result("staging", 200, "{}").unwrap();
    assert_eq!(made.name, "staging");
    assert_eq!(made.tenant_name, "acme");
}

#[test]
fn checklist_response_decodes() {
    let t = khroma::client::parse_checklist_response(
        200,
        "{\"max_batch_size\":-1,\"supports_base64_encoding\":true}",
    )
    .unwrap();
    assert_eq!(t.max_batch_size, -1);
    assert!(t.supports_base64_encoding);
}
