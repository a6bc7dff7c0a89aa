//! The response-dispatch chokepoint: status branching, error-body
//! extraction, synthesized messages, and the boolean text body.

use khroma::client::{
    parse_collection_response, parse_collections_response, parse_count_response,
    parse_create_tenant_response, parse_databases_response, parse_get_tenant_response,
    parse_reset_response,
};
use khroma::dispatch::{handle_text_response, parse_bool_text};
use khroma::KhromaError;

const NOT_FOUND_BODY: &str = "{\"error\":\"not_found\",\"message\":\"no such collection\"}";

fn assert_api_error<T: std::fmt::Debug>(
    r: Result<T, KhromaError>,
    want_status: u16,
    want_message: &str,
) {
    match r {
        Err(KhromaError::Api { status, message }) => {
            assert_eq!(status, want_status);
            assert_eq!(message, want_message);
        }
        other => panic!("expected an Api error, got {:?}", other),
    }
}

#[test]
fn structured_dispatch_extracts_404_message_for_collection() {
    assert_api_error(
        parse_collection_response(404, NOT_FOUND_BODY),
        404,
        "no such collection",
    );
}

#[test]
fn structured_dispatch_extracts_404_message_for_collections_list() {
    assert_api_error(
        parse_collections_response(404, NOT_FOUND_BODY),
        404,
        "no such collection",
    );
}

#[test]
fn structured_dispatch_extracts_404_message_for_tenant() {
    assert_api_error(
        parse_get_tenant_response(404, NOT_FOUND_BODY),
        404,
        "no such collection",
    );
}

#[test]
fn structured_dispatch_extracts_404_message_for_count() {
    assert_api_error(parse_count_response(404, NOT_FOUND_BODY), 404, "no such collection");
}

#[test]
fn structured_dispatch_extracts_404_message_for_databases() {
    assert_api_error(
        parse_databases_response(404, NOT_FOUND_BODY),
        404,
        "no such collection",
    );
}

#[test]
fn unparsable_500_body_synthesizes_message() {
    assert_api_error(
        parse_collection_response(500, "<html>oops</html>"),
        500,
        "Failed to parse error response. Status: 500 Internal Server Error",
    );
}

#[test]
fn error_body_without_error_field_synthesizes_message() {
    assert_api_error(
        parse_count_response(503, "{\"message\":\"lonely\"}"),
        503,
        "Failed to parse error response. Status: 503 Service Unavailable",
    );
}

#[test]
fn error_body_with_non_string_message_synthesizes() {
    assert_api_error(
        parse_count_response(400, "{\"error\":\"bad\",\"message\":7}"),
        400,
        "Failed to parse error response. Status: 400 Bad Request",
    );
}

#[test]
fn text_dispatch_passes_success_body_through() {
    let r = handle_text_response(200, "0.7.1").unwrap();
    assert_eq!(r, "0.7.1");
}

#[test]
fn text_dispatch_maps_failures_like_structured() {
    assert_api_error(handle_text_response(404, NOT_FOUND_BODY), 404, "no such collection");
}

#[test]
fn reset_true_body_yields_true() {
    assert_eq!(parse_reset_response(200, "true").unwrap(), true);
}

#[test]
fn reset_false_body_yields_false() {
    assert_eq!(parse_reset_response(200, "false").unwrap(), false);
}

#[test]
fn reset_maybe_body_is_a_decode_error() {
    match parse_reset_response(200, "maybe") {
        Err(KhromaError::Decode(_)) => {}
        other => panic!("expected a Decode error, got {:?}", other),
    }
}

#[test]
fn reset_failure_status_is_an_api_error() {
    assert_api_error(
        parse_reset_response(500, "true"),
        500,
        "Failed to parse error response. Status: 500 Internal Server Error",
    );
}

#[test]
fn bool_text_rejects_padded_literals() {
    assert!(matches!(parse_bool_text("true "), Err(KhromaError::Decode(_))));
    assert!(matches!(parse_bool_text("True"), Err(KhromaError::Decode(_))));
}

#[test]
fn success_with_malformed_json_is_a_decode_error() {
    match parse_create_tenant_response(200, "{not json") {
        Err(KhromaError::Decode(_)) => {}
        other => panic!("expected a Decode error, got {:?}", other),
    }
}

#[test]
fn empty_struct_accepts_any_object() {
    assert!(parse_create_tenant_response(200, "{\"ignored\":1}").is_ok());
    assert!(parse_create_tenant_response(201, "{}").is_ok());
}

#[test]
fn empty_struct_rejects_scalars() {
    assert!(matches!(
        parse_create_tenant_response(200, "17"),
        Err(KhromaError::Decode(_))
    ));
}

#[test]
fn mismatched_parallel_lengths_surface_server_error_verbatim() {
    // The client does not pre-validate parallel-sequence lengths: a
    // payload with 3 ids and 2 documents encodes fine, and the mocked
    // 400 the server would answer with is surfaced unchanged.
    let payload = khroma::models::AddCollectionRecordsPayload {
        ids: vec!["a".to_string(), "b".to_string(), "c".to_string()],
        embeddings: None,
        metadatas: None,
        documents: Some(vec![Some("d1".to_string()), None]),
        uris: None,
    };
    let body = khroma::payloads::encode_add_records(&payload).unwrap();
    let doc: serde_json::Value = serde_json::from_str(&body).unwrap();
    assert_eq!(doc["ids"].as_array().unwrap().len(), 3);
    assert_eq!(doc["documents"].as_array().unwrap().len(), 2);
    let server_answer = "{\"error\":\"InvalidArgumentError\",\"message\":\"documents length 2 != ids length 3\"}";
    assert_api_error(
        khroma::client::parse_add_records_response(400, server_answer),
        400,
        "documents length 2 != ids length 3",
    );
}

#[test]
fn synthesized_message_for_unregistered_code_names_it_unknown() {
    assert_api_error(
        parse_count_response(599, "boom"),
        599,
        "Failed to parse error response. Status: 599 <unknown status code>",
    );
}

#[test]
fn synthesized_message_includes_the_reason_phrase() {
    assert_api_error(
        parse_count_response(404, "not json"),
        404,
        "Failed to parse error response. Status: 404 Not Found",
    );
    assert_api_error(
        parse_count_response(429, "{}"),
        429,
        "Failed to parse error response. Status: 429 Too Many Requests",
    );
}
