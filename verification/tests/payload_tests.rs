//! Payload encoders: parallel sequences, embeddings variants, nullable
//! entries, and identifier normalization edge cases.

use khroma::models::{
    AddCollectionRecordsPayload, EmbeddingsPayload, UpdateCollectionRecordsPayload,
    UpdateEmbeddingsPayload,
};
use khroma::payloads::{encode_add_records, encode_update_records};
use khroma::KhromaError;

#[test]
fn dense_embeddings_encode_as_number_matrices() {
    let payload = AddCollectionRecordsPayload {
        ids: vec!["a".to_string(), "b".to_string()],
        embeddings: Some(EmbeddingsPayload::Dense(vec![
            vec!["1".to_string(), "2.5".to_string()],
            vec!["-3".to_string(), "4e2".to_string()],
        ])),
        metadatas: Some(vec![Some(serde_json::from_str("{\"k\":true}").unwrap()), None]),
        documents: None,
        uris: Some(vec![None, Some("u://b".to_string())]),
    };
    let body = encode_add_records(&payload).unwrap();
    let doc: serde_json::Value = serde_json::from_str(&body).unwrap();
    assert_eq!(doc["embeddings"][0][0], 1);
    assert_eq!(doc["embeddings"][0][1], 2.5);
    assert_eq!(doc["embeddings"][1][0], -3);
    assert_eq!(doc["embeddings"][1][1], 400.0);
    assert_eq!(doc["metadatas"][0]["k"], true);
    assert!(doc["metadatas"][1].is_null());
    assert!(doc["uris"][0].is_null());
    assert_eq!(doc["uris"][1], "u://b");
    assert!(doc.get("documents").is_none());
}

#[test]
fn source_embeddings_encode_as_strings() {
    let payload = AddCollectionRecordsPayload {
        ids: vec!["a".to_string()],
        embeddings: Some(EmbeddingsPayload::Source(vec!["embed me".to_string()])),
        metadatas: None,
        documents: None,
        uris: None,
    };
    let body = encode_add_records(&payload).unwrap();
    let doc: serde_json::Value = serde_json::from_str(&body).unwrap();
    assert_eq!(doc["embeddings"][0], "embed me");
}

#[test]
fn bad_dense_component_is_a_decode_error() {
    let payload = AddCollectionRecordsPayload {
        ids: vec!["a".to_string()],
        embeddings: Some(EmbeddingsPayload::Dense(vec![vec!["one".to_string()]])),
        metadatas: None,
        documents: None,
        uris: None,
    };
    assert!(matches!(encode_add_records(&payload), Err(KhromaError::Decode(_))));
}

#[test]
fn update_embeddings_allow_absent_rows() {
    let payload = UpdateCollectionRecordsPayload {
        ids: vec!["a".to_string(), "b".to_string()],
        embeddings: Some(UpdateEmbeddingsPayload::Dense(vec![
            Some(vec!["0.5".to_string()]),
            None,
        ])),
        metadatas: None,
        documents: Some(vec![None, Some("text".to_string())]),
        uris: None,
    };
    let body = encode_update_records(&payload).unwrap();
    let doc: serde_json::Value = serde_json::from_str(&body).unwrap();
    assert_eq!(doc["embeddings"][0][0], 0.5);
    assert!(doc["embeddings"][1].is_null());
    assert!(doc["documents"][0].is_null());
    assert_eq!(doc["documents"][1], "text");
}

#[test]
fn urn_uuid_texts_normalize() {
    let body = "{\"id\":\"urn:uuid:01234567-89ab-cdef-0123-456789abcdef\",\"name\":\"x\",\
                \"configuration_json\":{},\"tenant\":\"t\",\"database\":\"d\",\
                \"log_position\":-7,\"version\":0}";
    let c = khroma::client::parse_collection_response(200, body).unwrap();
    assert_eq!(c.id, "01234567-89ab-cdef-0123-456789abcdef");
    assert_eq!(c.log_position, -7);
    assert!(c.metadata.is_none());
    assert_eq!(c.dimension, None);
}

#[test]
fn deeply_nested_metadata_serializes_but_cannot_be_read_back() {
    // The serializer has no depth limit, but the parser stops at 128
    // open containers: a payload carrying such a value still builds,
    // and its document is simply beyond reading back.
    let mut deep = serde_json::Value::Bool(true);
    for _ in 0..150 {
        deep = serde_json::Value::Array(vec![deep]);
    }
    let payload = khroma::models::CreateCollectionPayload {
        name: "deep".to_string(),
        metadata: Some(deep),
        configuration: None,
        get_or_create: None,
    };
    let body = khroma::payloads::encode_create_collection(&payload).unwrap();
    assert!(serde_json::from_str::<serde_json::Value>(&body).is_err());

    let mut shallow = serde_json::Value::Bool(true);
    for _ in 0..50 {
        shallow = serde_json::Value::Array(vec![shallow]);
    }
    let payload = khroma::models::CreateCollectionPayload {
        name: "shallow".to_string(),
        metadata: Some(shallow),
        configuration: None,
        get_or_create: None,
    };
    let body = khroma::payloads::encode_create_collection(&payload).unwrap();
    assert!(serde_json::from_str::<serde_json::Value>(&body).is_ok());
}
