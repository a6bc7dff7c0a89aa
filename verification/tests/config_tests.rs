//! Configuration codecs: round trips, the strict index schemas, the
//! lenient enclosing object, and the untagged embedding descriptor.

use khroma::config::{decode_collection_configuration, encode_collection_configuration};
use khroma::models::{
    CollectionConfiguration, EmbeddingFunctionConfiguration, HnswConfiguration, HnswSpace,
    SpannConfiguration,
};
use khroma::KhromaError;

fn hnsw_sample() -> HnswConfiguration {
    HnswConfiguration {
        ef_construction: Some(128),
        ef_search: Some(64),
        max_neighbors: Some(16),
        resize_factor: Some("1.5".to_string()),
        space: Some(HnswSpace::Cosine),
        sync_threshold: Some(1000),
    }
}

fn spann_sample() -> SpannConfiguration {
    SpannConfiguration {
        ef_construction: Some(200),
        ef_search: Some(100),
        max_neighbors: Some(32),
        merge_threshold: Some(-3),
        reassign_neighbor_count: Some(8),
        search_nprobe: Some(4),
        space: Some(HnswSpace::L2),
        split_threshold: Some(50),
        write_nprobe: Some(2),
    }
}

fn assert_hnsw_eq(a: &HnswConfiguration, b: &HnswConfiguration) {
    assert_eq!(a.ef_construction, b.ef_construction);
    assert_eq!(a.ef_search, b.ef_search);
    assert_eq!(a.max_neighbors, b.max_neighbors);
    assert_eq!(a.resize_factor, b.resize_factor);
    assert_eq!(a.space, b.space);
    assert_eq!(a.sync_threshold, b.sync_threshold);
}

fn assert_spann_eq(a: &SpannConfiguration, b: &SpannConfiguration) {
    assert_eq!(a.ef_construction, b.ef_construction);
    assert_eq!(a.ef_search, b.ef_search);
    assert_eq!(a.max_neighbors, b.max_neighbors);
    assert_eq!(a.merge_threshold, b.merge_threshold);
    assert_eq!(a.reassign_neighbor_count, b.reassign_neighbor_count);
    assert_eq!(a.search_nprobe, b.search_nprobe);
    assert_eq!(a.space, b.space);
    assert_eq!(a.split_threshold, b.split_threshold);
    assert_eq!(a.write_nprobe, b.write_nprobe);
}

#[test]
fn hnsw_configuration_round_trips() {
    let config = CollectionConfiguration {
        embedding_function: None,
        hnsw: Some(hnsw_sample()),
        spann: None,
    };
    let text = encode_collection_configuration(&config).unwrap();
    let back = decode_collection_configuration(&text).unwrap();
    assert!(back.embedding_function.is_none());
    assert!(back.spann.is_none());
    assert_hnsw_eq(&back.hnsw.unwrap(), &hnsw_sample());
}

#[test]
fn spann_configuration_round_trips() {
    let config = CollectionConfiguration {
        embedding_function: None,
        hnsw: None,
        spann: Some(spann_sample()),
    };
    let text = encode_collection_configuration(&config).unwrap();
    let back = decode_collection_configuration(&text).unwrap();
    assert!(back.embedding_function.is_none());
    assert!(back.hnsw.is_none());
    assert_spann_eq(&back.spann.unwrap(), &spann_sample());
}

#[test]
fn both_index_blocks_are_passed_through_not_rejected() {
    // Whether hnsw and spann may be set together is the server's call:
    // the client encodes both and reads both back.
    let config = CollectionConfiguration {
        embedding_function: None,
        hnsw: Some(hnsw_sample()),
        spann: Some(spann_sample()),
    };
    let text = encode_collection_configuration(&config).unwrap();
    let back = decode_collection_configuration(&text).unwrap();
    assert_hnsw_eq(&back.hnsw.unwrap(), &hnsw_sample());
    assert_spann_eq(&back.spann.unwrap(), &spann_sample());
}

#[test]
fn legacy_embedding_function_round_trips() {
    let config = CollectionConfiguration {
        embedding_function: Some(EmbeddingFunctionConfiguration::Legacy {
            kind: "legacy".to_string(),
        }),
        hnsw: None,
        spann: None,
    };
    let text = encode_collection_configuration(&config).unwrap();
    let back = decode_collection_configuration(&text).unwrap();
    match back.embedding_function.unwrap() {
        EmbeddingFunctionConfiguration::Legacy { kind } => assert_eq!(kind, "legacy"),
        other => panic!("expected the legacy shape, got {:?}", kind_of(&other)),
    }
}

fn kind_of(e: &EmbeddingFunctionConfiguration) -> &str {
    match e {
        EmbeddingFunctionConfiguration::Legacy { .. } => "legacy",
        EmbeddingFunctionConfiguration::Known { .. } => "known",
    }
}

#[test]
fn known_descriptor_reads_back_as_legacy() {
    // The untagged wire format probes the legacy shape first, so a
    // known descriptor's document, which also has a string under
    // `type`, reads back as Legacy.
    let config = CollectionConfiguration {
        embedding_function: Some(EmbeddingFunctionConfiguration::Known {
            kind: "known".to_string(),
            config: khroma::models::EmbeddingFunctionNewConfiguration {
                name: "all-MiniLM-L6-v2".to_string(),
                config: serde_json::from_str("{\"device\":\"cpu\"}").unwrap(),
            },
        }),
        hnsw: None,
        spann: None,
    };
    let text = encode_collection_configuration(&config).unwrap();
    let doc: serde_json::Value = serde_json::from_str(&text).unwrap();
    assert_eq!(doc["embedding_function"]["type"], "known");
    assert_eq!(doc["embedding_function"]["name"], "all-MiniLM-L6-v2");
    assert_eq!(doc["embedding_function"]["config"]["device"], "cpu");
    let back = decode_collection_configuration(&text).unwrap();
    match back.embedding_function.unwrap() {
        EmbeddingFunctionConfiguration::Legacy { kind } => assert_eq!(kind, "known"),
        EmbeddingFunctionConfiguration::Known { .. } => {
            panic!("the probing order should have produced the legacy shape")
        }
    }
}

#[test]
fn unknown_field_in_hnsw_block_is_rejected() {
    let text = "{\"hnsw\":{\"ef_search\":7,\"surprise\":1}}";
    assert!(matches!(
        decode_collection_configuration(text),
        Err(KhromaError::Decode(_))
    ));
}

#[test]
fn unknown_field_in_spann_block_is_rejected() {
    let text = "{\"spann\":{\"write_nprobe\":2,\"surprise\":1}}";
    assert!(matches!(
        decode_collection_configuration(text),
        Err(KhromaError::Decode(_))
    ));
}

#[test]
fn unknown_field_at_top_level_is_ignored() {
    // The enclosing configuration object is lenient.
    let text = "{\"hnsw\":{\"ef_search\":7},\"future_field\":true}";
    let back = decode_collection_configuration(text).unwrap();
    assert_eq!(back.hnsw.unwrap().ef_search, Some(7));
}

#[test]
fn hnsw_space_texts_round_trip() {
    for (space, text) in [
        (HnswSpace::L2, "l2"),
        (HnswSpace::Cosine, "cosine"),
        (HnswSpace::Ip, "ip"),
    ] {
        let config = CollectionConfiguration {
            embedding_function: None,
            hnsw: Some(HnswConfiguration {
                ef_construction: None,
                ef_search: None,
                max_neighbors: None,
                resize_factor: None,
                space: Some(space),
                sync_threshold: None,
            }),
            spann: None,
        };
        let encoded = encode_collection_configuration(&config).unwrap();
        let doc: serde_json::Value = serde_json::from_str(&encoded).unwrap();
        assert_eq!(doc["hnsw"]["space"], text);
        let back = decode_collection_configuration(&encoded).unwrap();
        assert_eq!(back.hnsw.unwrap().space, Some(space));
    }
}

#[test]
fn bad_resize_factor_numeral_is_a_decode_error() {
    let config = CollectionConfiguration {
        embedding_function: None,
        hnsw: Some(HnswConfiguration {
            ef_construction: None,
            ef_search: None,
            max_neighbors: None,
            resize_factor: Some("not-a-number".to_string()),
            space: None,
            sync_threshold: None,
        }),
        spann: None,
    };
    assert!(matches!(
        encode_collection_configuration(&config),
        Err(KhromaError::Decode(_))
    ));
}

#[test]
fn integral_resize_factor_reads_back_canonically() {
    // A resize factor sent as the integer 2 comes back as the numeral
    // text serde_json prints for it.
    let back = decode_collection_configuration("{\"hnsw\":{\"resize_factor\":2}}").unwrap();
    assert_eq!(back.hnsw.unwrap().resize_factor, Some("2".to_string()));
    let back = decode_collection_configuration("{\"hnsw\":{\"resize_factor\":1.25}}").unwrap();
    assert_eq!(back.hnsw.unwrap().resize_factor, Some("1.25".to_string()));
}

#[test]
fn null_fields_read_back_as_absent() {
    let back = decode_collection_configuration("{\"hnsw\":null,\"spann\":null}").unwrap();
    assert!(back.hnsw.is_none());
    assert!(back.spann.is_none());
}
