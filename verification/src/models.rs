//! The request and response shapes of every endpoint.
//!
//! Opaque pass-through data (metadata maps and filter expressions) is
//! carried as a `serde_json::Value`, exactly as the server sees it.
//! Floating-point wire numbers (a resize factor, embedding components,
//! distances) are carried as their JSON numeral text, so that the
//! verified codecs can speak about them precisely.

use vstd::prelude::*;
use crate::json::canonical_number_text;

verus! {

/// Arbitrary key/value annotations, passed through opaquely; the wire
/// shape is a JSON object.
pub type Metadata = serde_json::Value;

/// The server's structured error body.
#[derive(Debug)]
pub struct ErrorResponse {
    pub error: String,
    pub message: String,
}

#[derive(Debug)]
pub struct GetUserIdentityResponse {
    pub user_id: String,
    pub tenant: String,
    pub databases: Vec<String>,
}

/// The wire key of the heartbeat field is `nanosecond heartbeat`.
#[derive(Debug)]
pub struct HeartbeatResponse {
    pub nanosecond_heartbeat: u64,
}

#[derive(Debug)]
pub struct ChecklistResponse {
    pub max_batch_size: i32,
    pub supports_base64_encoding: bool,
}

#[derive(Debug)]
pub struct CreateTenantPayload {
    pub name: String,
}

#[derive(Debug)]
pub struct CreateTenantResponse {}

#[derive(Debug)]
pub struct GetTenantResponse {
    pub name: String,
}

#[derive(Debug)]
pub struct CreateDatabasePayload {
    pub name: String,
}

#[derive(Debug)]
pub struct CreateDatabaseResponse {}

/// A database record; `id` is the server-assigned UUID in its canonical
/// hyphenated form.
#[derive(Debug)]
pub struct Database {
    pub id: String,
    pub name: String,
    pub tenant: String,
}

#[derive(Debug)]
pub struct DeleteDatabaseResponse {}

/// How the collection's embedding function is configured. The wire
/// format is untagged: a reader probes the legacy shape first, so any
/// object with a string under the key `type` reads back as `Legacy`.
#[derive(Debug)]
pub enum EmbeddingFunctionConfiguration {
    /// Holds the string under the wire key `type`.
    Legacy { kind: String },
    /// Holds the string under the wire key `type`, plus the descriptor's
    /// own fields flattened beside it.
    Known { kind: String, config: EmbeddingFunctionNewConfiguration },
}

#[derive(Debug)]
pub struct EmbeddingFunctionNewConfiguration {
    pub name: String,
    pub config: serde_json::Value,
}

#[derive(Clone, Copy, PartialEq, Eq, Structural, Debug)]
pub enum HnswSpace {
    L2,
    Cosine,
    Ip,
}

/// HNSW index parameters. The wire schema is strict: unknown fields are
/// rejected at decode time. `resize_factor` is the JSON numeral text of
/// a floating-point factor.
#[derive(Debug)]
pub struct HnswConfiguration {
    pub ef_construction: Option<u32>,
    pub ef_search: Option<u32>,
    pub max_neighbors: Option<u32>,
    pub resize_factor: Option<String>,
    pub space: Option<HnswSpace>,
    pub sync_threshold: Option<u32>,
}

impl HnswConfiguration {
    /// The stored numeral, if any, is exactly what the codec prints for
    /// the number it denotes; decoded values always are.
    pub open spec fn wf(self) -> bool {
        match self.resize_factor {
            Some(t) => canonical_number_text(t@),
            None => true,
        }
    }
}

/// SPANN index parameters; the wire schema is strict.
#[derive(Debug)]
pub struct SpannConfiguration {
    pub ef_construction: Option<u32>,
    pub ef_search: Option<u32>,
    pub max_neighbors: Option<u32>,
    pub merge_threshold: Option<i32>,
    pub reassign_neighbor_count: Option<i32>,
    pub search_nprobe: Option<i32>,
    pub space: Option<HnswSpace>,
    pub split_threshold: Option<i32>,
    pub write_nprobe: Option<i32>,
}

/// A collection's configuration: an optional embedding-function
/// descriptor and at most one index parameter block per kind. Whether
/// `hnsw` and `spann` may be set together is left to the server.
#[derive(Debug)]
pub struct CollectionConfiguration {
    pub embedding_function: Option<EmbeddingFunctionConfiguration>,
    pub hnsw: Option<HnswConfiguration>,
    pub spann: Option<SpannConfiguration>,
}

impl CollectionConfiguration {
    pub open spec fn wf(self) -> bool {
        match self.hnsw {
            Some(h) => h.wf(),
            None => true,
        }
    }
}

/// A collection record; `id` is the server-assigned UUID in its
/// canonical hyphenated form.
#[derive(Debug)]
pub struct Collection {
    pub id: String,
    pub name: String,
    pub metadata: Option<Metadata>,
    pub configuration_json: CollectionConfiguration,
    pub tenant: String,
    pub database: String,
    pub log_position: i64,
    pub version: i32,
    pub dimension: Option<i32>,
}

#[derive(Debug)]
pub struct CreateCollectionPayload {
    pub name: String,
    pub metadata: Option<Metadata>,
    pub configuration: Option<CollectionConfiguration>,
    pub get_or_create: Option<bool>,
}

#[derive(Debug)]
pub struct UpdateCollectionResponse {}

#[derive(Debug)]
pub struct UpdateCollectionPayload {
    pub new_name: Option<String>,
    pub new_metadata: Option<Metadata>,
    pub new_configuration: Option<UpdateCollectionConfiguration>,
}

#[derive(Debug)]
pub struct UpdateCollectionConfiguration {
    pub embedding_function: Option<EmbeddingFunctionConfiguration>,
    pub hnsw: Option<UpdateHnswConfiguration>,
    pub spann: Option<SpannConfiguration>,
}

/// Updatable HNSW parameters; the wire schema is strict.
/// `resize_factor` is the JSON numeral text of a floating-point factor.
#[derive(Debug)]
pub struct UpdateHnswConfiguration {
    pub batch_size: Option<u32>,
    pub ef_search: Option<u32>,
    pub max_neighbors: Option<u32>,
    pub num_threads: Option<u32>,
    pub resize_factor: Option<String>,
    pub sync_threshold: Option<u32>,
}

/// A record set's embeddings: either dense vectors, each component a
/// JSON numeral text, or source strings to be embedded server-side.
/// The wire format is untagged; the shape selects the variant.
#[derive(Debug)]
pub enum EmbeddingsPayload {
    Dense(Vec<Vec<String>>),
    Source(Vec<String>),
}

#[derive(Debug)]
pub struct AddCollectionRecordsPayload {
    pub ids: Vec<String>,
    pub embeddings: Option<EmbeddingsPayload>,
    pub metadatas: Option<Vec<Option<Metadata>>>,
    pub documents: Option<Vec<Option<String>>>,
    pub uris: Option<Vec<Option<String>>>,
}

#[derive(Debug)]
pub struct AddCollectionRecordsResponse {}

/// Server-validated filter expressions, passed through opaquely.
/// `where_filter` is serialized under the wire key `where`.
#[derive(Debug)]
pub struct RawWhereFields {
    pub where_filter: Option<serde_json::Value>,
    pub where_document: Option<serde_json::Value>,
}

/// The filter fields are flattened beside `ids` on the wire.
#[derive(Debug)]
pub struct DeleteCollectionRecordsPayload {
    pub where_fields: RawWhereFields,
    pub ids: Option<Vec<String>>,
}

#[derive(Debug)]
pub struct DeleteCollectionRecordsResponse {}

#[derive(Debug)]
pub struct ForkCollectionPayload {
    pub new_name: String,
}

/// A selector for which optional fields a read populates.
#[derive(Clone, Copy, PartialEq, Eq, Structural, Debug)]
pub enum Include {
    Distances,
    Documents,
    Embeddings,
    Metadatas,
    Uris,
}

pub type IncludeList = Vec<Include>;

/// The filter fields are flattened beside the other fields on the wire.
#[derive(Debug)]
pub struct GetRequestPayload {
    pub where_fields: RawWhereFields,
    pub ids: Option<Vec<String>>,
    pub include_list: Option<IncludeList>,
    pub limit: Option<i32>,
    pub offset: Option<i32>,
}

/// Embedding components come back as JSON numbers; they are carried as
/// their numeral texts.
#[derive(Debug)]
pub struct GetResponse {
    pub ids: Vec<String>,
    pub include_list: Vec<Include>,
    pub metadatas: Option<Vec<Option<Metadata>>>,
    pub documents: Option<Vec<Option<String>>>,
    pub uris: Option<Vec<Option<String>>>,
    pub embeddings: Option<Vec<Vec<String>>>,
}

/// The filter fields are flattened beside the other fields on the wire.
/// `query_embeddings` components are JSON numeral texts.
#[derive(Debug)]
pub struct QueryRequestPayload {
    pub where_fields: RawWhereFields,
    pub query_embeddings: Vec<Vec<String>>,
    pub ids: Option<Vec<String>>,
    pub include_list: Option<IncludeList>,
    pub n_results: Option<i32>,
}

/// Distances and embedding components come back as JSON numbers; they
/// are carried as their numeral texts.
#[derive(Debug)]
pub struct QueryResponse {
    pub ids: Vec<Vec<String>>,
    pub include_list: Vec<Include>,
    pub distances: Option<Vec<Vec<Option<String>>>>,
    pub metadatas: Option<Vec<Vec<Option<Metadata>>>>,
    pub documents: Option<Vec<Vec<Option<String>>>>,
    pub uris: Option<Vec<Vec<Option<String>>>>,
    pub embeddings: Option<Vec<Vec<Vec<Option<String>>>>>,
}

/// Like `EmbeddingsPayload`, but each record's entry may be absent.
#[derive(Debug)]
pub enum UpdateEmbeddingsPayload {
    Dense(Vec<Option<Vec<String>>>),
    Source(Vec<Option<String>>),
}

#[derive(Debug)]
pub struct UpdateCollectionRecordsPayload {
    pub ids: Vec<String>,
    pub embeddings: Option<UpdateEmbeddingsPayload>,
    pub metadatas: Option<Vec<Option<Metadata>>>,
    pub documents: Option<Vec<Option<String>>>,
    pub uris: Option<Vec<Option<String>>>,
}

#[derive(Debug)]
pub struct UpdateCollectionRecordsResponse {}

#[derive(Debug)]
pub struct UpsertCollectionRecordsPayload {
    pub ids: Vec<String>,
    pub embeddings: Option<EmbeddingsPayload>,
    pub metadatas: Option<Vec<Option<Metadata>>>,
    pub documents: Option<Vec<Option<String>>>,
    pub uris: Option<Vec<Option<String>>>,
}

#[derive(Debug)]
pub struct UpsertCollectionRecordsResponse {}

} // verus!
